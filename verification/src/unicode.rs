//! The Unicode glyph compositor: renders a frame as lines of colored
//! block glyphs, one cell per 2x1 (half mode) or 2x2 (quarter mode)
//! pixel block.

use vstd::prelude::*;

use crate::ansi::{push_bg, push_fg, push_reset_all, push_reset_bg, spec_bg_escape, spec_fg_escape,
    spec_reset_all, spec_reset_bg};
use crate::backend::{RenderOptions, RenderedFrame};
use crate::background::{background_rgb, spec_background_rgb, BackgroundStyle};
use crate::config::{BackendKind, PixelationMode, RgbColor};
use crate::error::RimgError;
use crate::frame::{pixel_at, Frame, Rgba};
use crate::quarter::{find_best_quarter_block, spec_block_char, spec_find_best_quarter,
    QuarterBlock};
use crate::resample::{scale_to, spec_scaled_data, ResampleFilter};
use crate::sizing::{spec_unicode_target, unicode_target};
use crate::text::push_char;

verus! {

/// The alpha threshold below which a pixel counts as transparent.
pub const ALPHA_THRESHOLD: u8 = 16;

/// The color a pixel shows at `(x, y)`: its own color when it is opaque
/// enough, else the configured background color there, if any.
pub open spec fn spec_resolve(pixel: Rgba, x: int, y: int, background: BackgroundStyle) -> Option<
    RgbColor,
> {
    if pixel.a >= ALPHA_THRESHOLD {
        Some(RgbColor { r: pixel.r, g: pixel.g, b: pixel.b })
    } else {
        spec_background_rgb(x, y, background)
    }
}

/// Resolves a pixel's displayed color at `(x, y)`.
pub fn resolve_color(pixel: Rgba, x: u32, y: u32, background: BackgroundStyle) -> (r: Option<
    RgbColor,
>)
    ensures
        r == spec_resolve(pixel, x as int, y as int, background),
{
    if pixel.a >= ALPHA_THRESHOLD {
        Some(RgbColor { r: pixel.r, g: pixel.g, b: pixel.b })
    } else {
        background_rgb(x, y, background)
    }
}

/// The text of one half-block cell: an upper half block colored with the
/// top and bottom pixel, a half block over a reset background when only
/// one is present, or a reset space when neither is.
pub open spec fn spec_half_cell(
    top: Option<RgbColor>,
    bottom: Option<RgbColor>,
    use_8bit: bool,
) -> Seq<char> {
    match (top, bottom) {
        (None, None) => spec_reset_all() + seq![' '],
        (Some(t), Some(b)) => spec_fg_escape(t, use_8bit) + spec_bg_escape(b, use_8bit)
            + seq!['\u{2580}'],
        (Some(t), None) => spec_fg_escape(t, use_8bit) + spec_reset_bg() + seq!['\u{2580}'],
        (None, Some(b)) => spec_fg_escape(b, use_8bit) + spec_reset_bg() + seq!['\u{2584}'],
    }
}

/// Appends one half-block cell for a top and bottom pixel at column `x`,
/// pixel row `y`.
pub fn append_half_block(
    line: &mut String,
    top: Rgba,
    bottom: Rgba,
    x: u32,
    y: u32,
    background: BackgroundStyle,
    use_8bit: bool,
)
    requires
        y < 0xffff_ffff,
    ensures
        final(line)@ == old(line)@ + spec_half_cell(
            spec_resolve(top, x as int, y as int, background),
            spec_resolve(bottom, x as int, y as int + 1, background),
            use_8bit,
        ),
{
    let top = resolve_color(top, x, y, background);
    let bottom = resolve_color(bottom, x, y + 1, background);
    match (top, bottom) {
        (None, None) => {
            push_reset_all(line);
            push_char(line, ' ');
        },
        (Some(t), Some(b)) => {
            push_fg(line, t, use_8bit);
            push_bg(line, b, use_8bit);
            push_char(line, '\u{2580}');
        },
        (Some(t), None) => {
            push_fg(line, t, use_8bit);
            push_reset_bg(line);
            push_char(line, '\u{2580}');
        },
        (None, Some(b)) => {
            push_fg(line, b, use_8bit);
            push_reset_bg(line);
            push_char(line, '\u{2584}');
        },
    }
    proof {
        assert((*line)@ =~= old(line)@ + spec_half_cell(top, bottom, use_8bit));
    }
}

/// The bottom pixel of a half-block pair: the pixel below, or a fully
/// transparent pixel on the last odd row.
pub open spec fn spec_bottom_pixel(data: Seq<u8>, w: int, h: int, x: int, y: int) -> Rgba {
    if y + 1 < h {
        pixel_at(data, w, x, y + 1)
    } else {
        Rgba { r: 0, g: 0, b: 0, a: 0 }
    }
}

/// The text of the half-block cell at column `x`, pixel row `y`.
pub open spec fn spec_half_cell_at(
    data: Seq<u8>,
    w: int,
    h: int,
    x: int,
    y: int,
    background: BackgroundStyle,
    use_8bit: bool,
) -> Seq<char> {
    spec_half_cell(
        spec_resolve(pixel_at(data, w, x, y), x, y, background),
        spec_resolve(spec_bottom_pixel(data, w, h, x, y), x, y + 1, background),
        use_8bit,
    )
}

/// The first `x` cells of a half-block line.
pub open spec fn spec_half_prefix(
    data: Seq<u8>,
    w: int,
    h: int,
    y: int,
    background: BackgroundStyle,
    use_8bit: bool,
    x: int,
) -> Seq<char>
    decreases x,
{
    if x <= 0 {
        Seq::empty()
    } else {
        spec_half_prefix(data, w, h, y, background, use_8bit, x - 1) + spec_half_cell_at(
            data, w, h, x - 1, y, background, use_8bit)
    }
}

/// One full half-block line: all cells of the pixel-row pair starting at
/// `y`, ended by a full reset.
pub open spec fn spec_half_line(
    data: Seq<u8>,
    w: int,
    h: int,
    y: int,
    background: BackgroundStyle,
    use_8bit: bool,
) -> Seq<char> {
    spec_half_prefix(data, w, h, y, background, use_8bit, w) + spec_reset_all()
}

/// The four quadrant pixels of the 2x2 block at `(x, y)`; quadrants past
/// the edge replicate the top-left pixel.
pub open spec fn spec_quad_pixels(data: Seq<u8>, w: int, h: int, x: int, y: int) -> (
    Rgba,
    Rgba,
    Rgba,
    Rgba,
) {
    let tl = pixel_at(data, w, x, y);
    let tr = if x + 1 < w { pixel_at(data, w, x + 1, y) } else { tl };
    let bl = if y + 1 < h { pixel_at(data, w, x, y + 1) } else { tl };
    let br = if x + 1 < w && y + 1 < h { pixel_at(data, w, x + 1, y + 1) } else { tl };
    (tl, tr, bl, br)
}

/// The text of one quarter-block cell for four resolved quadrants: a
/// reset space when nothing is present, else the best glyph with its
/// foreground escape (if any) and its background escape or a background
/// reset.
#[verifier::opaque]
pub open spec fn spec_quarter_cell(
    tl: Option<RgbColor>,
    tr: Option<RgbColor>,
    bl: Option<RgbColor>,
    br: Option<RgbColor>,
    use_8bit: bool,
) -> Seq<char> {
    if tl is None && tr is None && bl is None && br is None {
        spec_reset_all() + seq![' ']
    } else {
        let best = spec_find_best_quarter(tl, tr, bl, br);
        (match best.1 {
            Some(f) => spec_fg_escape(f, use_8bit),
            None => Seq::empty(),
        }) + (match best.2 {
            Some(b) => spec_bg_escape(b, use_8bit),
            None => spec_reset_bg(),
        }) + seq![spec_block_char(best.0)]
    }
}

/// Appends one quarter-block cell for the 2x2 block at `(x, y)`.
#[verifier::rlimit(100)]
#[verifier::spinoff_prover]
pub fn append_quarter_block(
    line: &mut String,
    tl: Rgba,
    tr: Rgba,
    bl: Rgba,
    br: Rgba,
    x: u32,
    y: u32,
    background: BackgroundStyle,
    use_8bit: bool,
)
    requires
        x < 0xffff_ffff,
        y < 0xffff_ffff,
    ensures
        final(line)@ == old(line)@ + spec_quarter_cell(
            spec_resolve(tl, x as int, y as int, background),
            spec_resolve(tr, x as int + 1, y as int, background),
            spec_resolve(bl, x as int, y as int + 1, background),
            spec_resolve(br, x as int + 1, y as int + 1, background),
            use_8bit,
        ),
{
    let tl = resolve_color(tl, x, y, background);
    let tr = resolve_color(tr, x + 1, y, background);
    let bl = resolve_color(bl, x, y + 1, background);
    let br = resolve_color(br, x + 1, y + 1, background);

    if tl.is_none() && tr.is_none() && bl.is_none() && br.is_none() {
        push_reset_all(line);
        push_char(line, ' ');
        proof {
            reveal(spec_quarter_cell);
            assert((*line)@ =~= old(line)@ + spec_quarter_cell(tl, tr, bl, br, use_8bit));
        }
        return;
    }

    let best = find_best_quarter_block(tl, tr, bl, br);
    if let Some(fg_rgb) = best.1 {
        push_fg(line, fg_rgb, use_8bit);
    }
    if let Some(bg_rgb) = best.2 {
        push_bg(line, bg_rgb, use_8bit);
    } else {
        push_reset_bg(line);
    }
    push_char(line, best.0.to_char());
    proof {
        reveal(spec_quarter_cell);
        assert((*line)@ =~= old(line)@ + spec_quarter_cell(tl, tr, bl, br, use_8bit));
    }
}

/// The text of the quarter-block cell whose top-left pixel is `(x, y)`.
pub open spec fn spec_quarter_cell_at(
    data: Seq<u8>,
    w: int,
    h: int,
    x: int,
    y: int,
    background: BackgroundStyle,
    use_8bit: bool,
) -> Seq<char> {
    let quads = spec_quad_pixels(data, w, h, x, y);
    spec_quarter_cell(
        spec_resolve(quads.0, x, y, background),
        spec_resolve(quads.1, x + 1, y, background),
        spec_resolve(quads.2, x, y + 1, background),
        spec_resolve(quads.3, x + 1, y + 1, background),
        use_8bit,
    )
}

/// The first `cells` cells of a quarter-block line.
pub open spec fn spec_quarter_prefix(
    data: Seq<u8>,
    w: int,
    h: int,
    y: int,
    background: BackgroundStyle,
    use_8bit: bool,
    cells: int,
) -> Seq<char>
    decreases cells,
{
    if cells <= 0 {
        Seq::empty()
    } else {
        spec_quarter_prefix(data, w, h, y, background, use_8bit, cells - 1)
            + spec_quarter_cell_at(data, w, h, 2 * (cells - 1), y, background, use_8bit)
    }
}

/// One full quarter-block line: all cells of the two pixel rows starting
/// at `y`, ended by a full reset.
pub open spec fn spec_quarter_line(
    data: Seq<u8>,
    w: int,
    h: int,
    y: int,
    background: BackgroundStyle,
    use_8bit: bool,
) -> Seq<char> {
    spec_quarter_prefix(data, w, h, y, background, use_8bit, w / 2) + spec_reset_all()
}

/// The Unicode glyph compositor.
#[derive(Debug)]
pub struct UnicodeBackend;

impl Default for UnicodeBackend {
    fn default() -> (r: Self) {
        UnicodeBackend
    }
}

/// The pixel data a frame shows after scaling to the target size with the
/// compositor's linear filter.
pub open spec fn spec_unicode_scaled(frame: Frame, tw: int, th: int) -> Seq<u8> {
    spec_scaled_data(
        frame.pixels.data@,
        frame.pixels.width as int,
        frame.pixels.height as int,
        tw,
        th,
        ResampleFilter::Triangle,
    )
}

/// What a Unicode render returns when it succeeds: the frame scaled to
/// the mode's target size and composited into block-glyph lines, one per
/// pixel-row pair.
pub open spec fn unicode_render_post(
    frame: Frame,
    options: RenderOptions,
    r: Result<RenderedFrame, RimgError>,
) -> bool {
    let target = spec_unicode_target(
        frame.pixels.width as int, frame.pixels.height as int, options.sizing,
        options.terminal.columns as int, options.terminal.rows as int,
        options.pixelation);
    let scaled = spec_unicode_scaled(frame, target.0, target.1);
    &&& (r is Ok <==> 4 * target.0 * target.1 <= usize::MAX)
    &&& r is Ok ==> {
        let rf = r->Ok_0;
        &&& rf.delay_ms == frame.delay_ms
        &&& rf.height_cells == target.1 / 2
        &&& rf.lines@.len() == target.1 / 2
        &&& (options.pixelation is Half ==> rf.width_cells == target.0)
        &&& (options.pixelation is Quarter ==> rf.width_cells == target.0 / 2)
        &&& (options.pixelation is Half ==> forall|j: int|
            0 <= j < rf.lines@.len()
                ==> #[trigger] rf.lines@[j]@ == spec_half_line(
                    scaled, target.0, target.1, 2 * j,
                    options.background, options.use_8bit_color))
        &&& (options.pixelation is Quarter ==> forall|j: int|
            0 <= j < rf.lines@.len()
                ==> #[trigger] rf.lines@[j]@ == spec_quarter_line(
                    scaled, target.0, target.1, 2 * j,
                    options.background, options.use_8bit_color))
    }
}

impl UnicodeBackend {
    /// The backend's name.
    pub fn name(&self) -> (r: &'static str)
        ensures
            r@ == "unicode"@,
    {
        "unicode"
    }

    /// The backend kind this renderer serves.
    pub fn supported_kind(&self) -> (r: BackendKind)
        ensures
            r == BackendKind::Unicode,
    {
        BackendKind::Unicode
    }

    /// Renders a frame in the pixelation mode the options select.
    pub fn render(&self, frame: &Frame, options: RenderOptions) -> (r: Result<
        RenderedFrame,
        RimgError,
    >)
        requires
            frame.pixels.wf(),
            frame.pixels.width >= 1,
            frame.pixels.height >= 1,
            options.wf(),
        ensures
            unicode_render_post(*frame, options, r),
    {
        match options.pixelation {
            PixelationMode::Half => self.render_half_blocks(frame, options),
            PixelationMode::Quarter => self.render_quarter_blocks(frame, options),
        }
    }

    /// Renders with one cell per pixel column and two pixel rows.
    pub fn render_half_blocks(&self, frame: &Frame, options: RenderOptions) -> (r: Result<
        RenderedFrame,
        RimgError,
    >)
        requires
            frame.pixels.wf(),
            frame.pixels.width >= 1,
            frame.pixels.height >= 1,
            options.wf(),
            options.pixelation is Half,
        ensures
            ({
                let target = spec_unicode_target(
                    frame.pixels.width as int, frame.pixels.height as int, options.sizing,
                    options.terminal.columns as int, options.terminal.rows as int,
                    options.pixelation);
                let scaled = spec_unicode_scaled(*frame, target.0, target.1);
                &&& (r is Ok <==> 4 * target.0 * target.1 <= usize::MAX)
                &&& r is Ok ==> {
                    let rf = r->Ok_0;
                    &&& rf.delay_ms == frame.delay_ms
                    &&& rf.width_cells == target.0
                    &&& rf.height_cells == target.1 / 2
                    &&& rf.lines@.len() == target.1 / 2
                    &&& forall|j: int| 0 <= j < rf.lines@.len()
                        ==> #[trigger] rf.lines@[j]@ == spec_half_line(
                            scaled, target.0, target.1, 2 * j,
                            options.background, options.use_8bit_color)
                }
            }),
    {
        let (tw, th) = unicode_target(
            frame.pixels.width(), frame.pixels.height(), &options.sizing,
            options.terminal.columns, options.terminal.rows, PixelationMode::Half);
        if oversized(tw, th) {
            return Err(RimgError::other(String::from_str(
                "render target too large for this platform")));
        }
        let scaled = scale_to(&frame.pixels, tw, th, ResampleFilter::Triangle);
        let ghost sdata = scaled.data@;
        let bgs = options.background;
        let use8 = options.use_8bit_color;

        let mut lines: Vec<String> = Vec::new();
        let mut y: u32 = 0;
        while y < th
            invariant
                y <= th,
                y % 2 == 0,
                th % 2 == 0,
                scaled.wf(),
                scaled.width == tw,
                scaled.height == th,
                scaled.data@ == sdata,
                tw >= 1,
                th >= 1,
                lines@.len() == y / 2,
                forall|j: int| 0 <= j < y / 2
                    ==> #[trigger] lines@[j]@ == spec_half_line(sdata, tw as int, th as int,
                        2 * j, bgs, use8),
            decreases th - y,
        {
            let mut line = String::new();
            let mut x: u32 = 0;
            while x < tw
                invariant
                    x <= tw,
                    y < th,
                    y < 0xffff_ffff,
                    th % 2 == 0,
                    y % 2 == 0,
                    scaled.wf(),
                    scaled.width == tw,
                    scaled.height == th,
                    scaled.data@ == sdata,
                    line@ == spec_half_prefix(sdata, tw as int, th as int, y as int, bgs, use8,
                        x as int),
                decreases tw - x,
            {
                let top = scaled.get_pixel(x, y);
                let bottom = if y + 1 < th {
                    scaled.get_pixel(x, y + 1)
                } else {
                    Rgba { r: 0, g: 0, b: 0, a: 0 }
                };
                append_half_block(&mut line, top, bottom, x, y, bgs, use8);
                proof {
                    assert(line@ =~= spec_half_prefix(sdata, tw as int, th as int, y as int,
                        bgs, use8, x as int + 1));
                }
                x = x + 1;
            }
            push_reset_all(&mut line);
            proof {
                assert(line@ =~= spec_half_line(sdata, tw as int, th as int, y as int, bgs,
                    use8));
            }
            lines.push(line);
            y = y + 2;
        }
        Ok(RenderedFrame {
            lines,
            width_cells: tw,
            height_cells: th / 2,
            delay_ms: frame.delay_ms,
        })
    }

    /// Renders with one cell per 2x2 pixel block, choosing the best glyph
    /// for each block.
    pub fn render_quarter_blocks(&self, frame: &Frame, options: RenderOptions) -> (r: Result<
        RenderedFrame,
        RimgError,
    >)
        requires
            frame.pixels.wf(),
            frame.pixels.width >= 1,
            frame.pixels.height >= 1,
            options.wf(),
            options.pixelation is Quarter,
        ensures
            ({
                let target = spec_unicode_target(
                    frame.pixels.width as int, frame.pixels.height as int, options.sizing,
                    options.terminal.columns as int, options.terminal.rows as int,
                    options.pixelation);
                let scaled = spec_unicode_scaled(*frame, target.0, target.1);
                &&& (r is Ok <==> 4 * target.0 * target.1 <= usize::MAX)
                &&& r is Ok ==> {
                    let rf = r->Ok_0;
                    &&& rf.delay_ms == frame.delay_ms
                    &&& rf.width_cells == target.0 / 2
                    &&& rf.height_cells == target.1 / 2
                    &&& rf.lines@.len() == target.1 / 2
                    &&& forall|j: int| 0 <= j < rf.lines@.len()
                        ==> #[trigger] rf.lines@[j]@ == spec_quarter_line(
                            scaled, target.0, target.1, 2 * j,
                            options.background, options.use_8bit_color)
                }
            }),
    {
        let (tw, th) = unicode_target(
            frame.pixels.width(), frame.pixels.height(), &options.sizing,
            options.terminal.columns, options.terminal.rows, PixelationMode::Quarter);
        if oversized(tw, th) {
            return Err(RimgError::other(String::from_str(
                "render target too large for this platform")));
        }
        let scaled = scale_to(&frame.pixels, tw, th, ResampleFilter::Triangle);
        let ghost sdata = scaled.data@;
        let bgs = options.background;
        let use8 = options.use_8bit_color;

        let mut lines: Vec<String> = Vec::new();
        let mut y: u32 = 0;
        while y < th
            invariant
                y <= th,
                y % 2 == 0,
                th % 2 == 0,
                tw % 2 == 0,
                scaled.wf(),
                scaled.width == tw,
                scaled.height == th,
                scaled.data@ == sdata,
                tw >= 1,
                th >= 1,
                lines@.len() == y / 2,
                forall|j: int| 0 <= j < y / 2
                    ==> #[trigger] lines@[j]@ == spec_quarter_line(sdata, tw as int, th as int,
                        2 * j, bgs, use8),
            decreases th - y,
        {
            let mut line = String::new();
            let mut k: u32 = 0;
            let cells = tw / 2;
            while k < cells
                invariant
                    k <= cells,
                    cells == tw / 2,
                    y < th,
                    y < 0xffff_ffff,
                    th % 2 == 0,
                    tw % 2 == 0,
                    y % 2 == 0,
                    scaled.wf(),
                    scaled.width == tw,
                    scaled.height == th,
                    scaled.data@ == sdata,
                    line@ == spec_quarter_prefix(sdata, tw as int, th as int, y as int, bgs,
                        use8, k as int),
                decreases cells - k,
            {
                let x = 2 * k;
                let tl = scaled.get_pixel(x, y);
                let tr = if x + 1 < tw { scaled.get_pixel(x + 1, y) } else { tl };
                let bl = if y + 1 < th { scaled.get_pixel(x, y + 1) } else { tl };
                let br = if x + 1 < tw && y + 1 < th { scaled.get_pixel(x + 1, y + 1) } else {
                    tl
                };
                append_quarter_block(&mut line, tl, tr, bl, br, x, y, bgs, use8);
                proof {
                    assert(line@ =~= spec_quarter_prefix(sdata, tw as int, th as int, y as int,
                        bgs, use8, k as int + 1));
                }
                k = k + 1;
            }
            push_reset_all(&mut line);
            proof {
                assert(line@ =~= spec_quarter_line(sdata, tw as int, th as int, y as int, bgs,
                    use8));
            }
            lines.push(line);
            y = y + 2;
        }
        Ok(RenderedFrame {
            lines,
            width_cells: tw / 2,
            height_cells: th / 2,
            delay_ms: frame.delay_ms,
        })
    }
}

/// Whether a target pixel buffer would not fit in memory addressing.
fn oversized(tw: u32, th: u32) -> (r: bool)
    ensures
        r == (4 * tw * th > usize::MAX),
{
    proof {
        assert(4 * (tw as int) * (th as int) <= 4 * 0xffff_ffff * 0xffff_ffff)
            by (nonlinear_arith)
            requires tw <= 0xffff_ffffu32 && th <= 0xffff_ffffu32;
        assert((4 * (tw as u128) * (th as u128)) as int == 4 * (tw as int) * (th as int))
            by (nonlinear_arith)
            requires tw <= 0xffff_ffffu32 && th <= 0xffff_ffffu32;
    }
    let need: u128 = 4 * (tw as u128) * (th as u128);
    need > usize::MAX as u128
}

} // verus!
