//! The kitty-style inline graphics protocol encoder.
//!
//! The frame is composited, PNG-encoded and base64-chunked; the first
//! chunk carries the transmit-and-display metadata and a time-derived
//! image identifier, every chunk but the last sets the more-data flag,
//! and each chunk is framed `ESC _ G <params> ; <payload> ESC \`.

use vstd::prelude::*;

use vstd::math::max;

use crate::backend::{RenderOptions, RenderedFrame};
use crate::background::{blend_transparency, spec_blended};
use crate::chunk::{base64_of, spec_chunk, spec_chunk_count, Base64Chunks};
use crate::codec::{encode_png, png_encodes_ok, png_encoding_of};
use crate::config::BackendKind;
use crate::error::RimgError;
use crate::frame::Frame;
use crate::sizing::{kitty_cell_allocation, spec_kitty_cells};
use crate::text::{dec_str, push_u64};
use crate::tmux::{tmux_wrapped, wrap_for_tmux};

verus! {

/// Base64 characters per chunk of the transmission.
pub const KITTY_CHUNK: usize = 3072;

/// The first chunk's parameter list: transmit-and-display action, PNG
/// format marker, quiet-feedback flag, image identifier, pixel size and
/// cell rectangle.
pub open spec fn spec_kitty_first_params(
    image_id: int,
    pw: int,
    ph: int,
    wc: int,
    hc: int,
) -> Seq<char> {
    "a=T,f=100,q=2,i="@ + dec_str(image_id as nat) + ",s="@ + dec_str(pw as nat) + ",v="@
        + dec_str(ph as nat) + ",c="@ + dec_str(max(wc, 1) as nat) + ",r="@
        + dec_str(max(hc, 1) as nat)
}

/// Chunk `i` of a kitty-style transmission, framed and, when the output
/// passes through a multiplexer, wrapped for passthrough.
pub open spec fn spec_kitty_line(
    enc: Seq<char>,
    total: int,
    i: int,
    image_id: int,
    pw: int,
    ph: int,
    wc: int,
    hc: int,
    multiplexer: bool,
) -> Seq<char> {
    let params = if i == 0 {
        spec_kitty_first_params(image_id, pw, ph, wc, hc)
            + (if i + 1 < total { ",m=1"@ } else { Seq::<char>::empty() })
    } else {
        if i + 1 < total { "m=1"@ } else { Seq::<char>::empty() }
    };
    let base = "\u{1b}_G"@ + params + ";"@ + spec_chunk(enc, KITTY_CHUNK as int, i)
        + "\u{1b}\\"@;
    if multiplexer { tmux_wrapped(base) } else { base }
}

/// Whether `lines` is exactly the chunked kitty-style transmission of the
/// encoded payload `enc` under the given metadata.
pub open spec fn spec_kitty_lines_ok(
    lines: Seq<String>,
    enc: Seq<char>,
    image_id: int,
    pw: int,
    ph: int,
    wc: int,
    hc: int,
    multiplexer: bool,
) -> bool {
    let total = spec_chunk_count(enc.len() as int, KITTY_CHUNK as int);
    &&& lines.len() == total
    &&& forall|i: int| 0 <= i < total
        ==> #[trigger] lines[i]@ == spec_kitty_line(enc, total, i, image_id, pw, ph, wc, hc,
            multiplexer)
}

/// Whether `lines` is a kitty-style transmission of `enc` under some
/// image identifier; the identifier is time-derived, so a render promises
/// no particular value.
pub open spec fn spec_kitty_lines_some_id(
    lines: Seq<String>,
    enc: Seq<char>,
    pw: int,
    ph: int,
    wc: int,
    hc: int,
    multiplexer: bool,
) -> bool {
    exists|id: int| #[trigger] spec_kitty_lines_ok(lines, enc, id, pw, ph, wc, hc, multiplexer)
}

/// What a kitty-style render returns: it fails exactly when the PNG
/// encoder does or when the encoding is too large to chunk; otherwise
/// the frame is background-composited, PNG-encoded, base64-chunked and
/// framed, with the cell allocation claimed as the width and no height
/// accounting.
pub open spec fn kitty_render_post(
    frame: Frame,
    options: RenderOptions,
    r: Result<RenderedFrame, RimgError>,
) -> bool {
    let cells = spec_kitty_cells(
        options.sizing.width_cells, options.sizing.height_cells,
        frame.pixels.width as int, frame.pixels.height as int,
        options.terminal.columns as int, options.terminal.rows as int);
    let blended = spec_blended(frame.pixels.data@, frame.pixels.width as int,
        options.background);
    let png = png_encoding_of(blended, frame.pixels.width as int, frame.pixels.height as int);
    let enc = base64_of(png);
    &&& (r is Err <==> (!png_encodes_ok(blended, frame.pixels.width as int,
        frame.pixels.height as int) || png.len() > usize::MAX as int / 8))
    &&& r is Ok ==> {
        let rf = r->Ok_0;
        &&& rf.width_cells == cells.0
        &&& rf.height_cells == 0
        &&& rf.delay_ms == frame.delay_ms
        &&& spec_kitty_lines_some_id(rf.lines@, enc, frame.pixels.width as int,
            frame.pixels.height as int, cells.0, cells.1, options.multiplexer)
    }
}

/// Relies on std's `SystemTime::now`: the identifier is derived from the
/// clock, so nothing is promised of its value.
#[verifier::external_body]
fn current_image_id() -> u32 {
    std::time::SystemTime::now()
        .duration_since(std::time::UNIX_EPOCH)
        .map(|d| d.as_millis() as u32)
        .unwrap_or(1)
}

/// The kitty-style graphics protocol encoder.
#[derive(Debug)]
pub struct KittyBackend;

impl Default for KittyBackend {
    fn default() -> (r: Self) {
        KittyBackend
    }
}

impl KittyBackend {
    /// The backend's name.
    pub fn name(&self) -> (r: &'static str)
        ensures
            r@ == "kitty"@,
    {
        "kitty"
    }

    /// The backend kind this renderer serves.
    pub fn supported_kind(&self) -> (r: BackendKind)
        ensures
            r == BackendKind::Kitty,
    {
        BackendKind::Kitty
    }

    /// Frames an encoded payload as kitty-style chunks under the given
    /// metadata.
    pub fn build_chunks(
        &self,
        data: &[u8],
        width_cells: u32,
        height_cells: u32,
        pixel_width: u32,
        pixel_height: u32,
        image_id: u32,
        multiplexer: bool,
    ) -> (r: Vec<String>)
        requires
            data@.len() <= usize::MAX as int / 8,
        ensures
            spec_kitty_lines_ok(r@, base64_of(data@), image_id as int, pixel_width as int,
                pixel_height as int, width_cells as int, height_cells as int, multiplexer),
    {
        let chunks = Base64Chunks::new(data, KITTY_CHUNK);
        let total = chunks.len();
        let ghost enc = base64_of(data@);
        let mut lines: Vec<String> = Vec::new();
        let mut i: usize = 0;
        while i < total
            invariant
                i <= total,
                chunks.wf(),
                chunks.spec_encoded() == enc,
                chunks.spec_chunk_size() == KITTY_CHUNK as int,
                total == spec_chunk_count(enc.len() as int, KITTY_CHUNK as int),
                lines@.len() == i,
                forall|j: int| 0 <= j < i
                    ==> #[trigger] lines@[j]@ == spec_kitty_line(enc, total as int, j,
                        image_id as int, pixel_width as int, pixel_height as int,
                        width_cells as int, height_cells as int, multiplexer),
            decreases total - i,
        {
            let mut params = String::new();
            if i == 0 {
                params.append("a=T,f=100,q=2,i=");
                push_u64(&mut params, image_id as u64);
                params.append(",s=");
                push_u64(&mut params, pixel_width as u64);
                params.append(",v=");
                push_u64(&mut params, pixel_height as u64);
                params.append(",c=");
                push_u64(&mut params, if width_cells < 1 { 1 } else { width_cells as u64 });
                params.append(",r=");
                push_u64(&mut params, if height_cells < 1 { 1 } else { height_cells as u64 });
                proof {
                    assert(params@ =~= spec_kitty_first_params(image_id as int,
                        pixel_width as int, pixel_height as int, width_cells as int,
                        height_cells as int));
                }
            }
            if i + 1 < total {
                if i == 0 {
                    params.append(",m=1");
                } else {
                    params.append("m=1");
                }
            }
            let mut line = String::from_str("\u{1b}_G");
            line.append(params.as_str());
            line.append(";");
            let piece = chunks.chunk_at(i);
            line.append(piece);
            line.append("\u{1b}\\");
            proof {
                assert(line@ =~= "\u{1b}_G"@ + params@ + ";"@
                    + spec_chunk(enc, KITTY_CHUNK as int, i as int) + "\u{1b}\\"@);
            }
            let line = if multiplexer {
                wrap_for_tmux(line.as_str())
            } else {
                line
            };
            proof {
                assert(line@ =~= spec_kitty_line(enc, total as int, i as int, image_id as int,
                    pixel_width as int, pixel_height as int, width_cells as int,
                    height_cells as int, multiplexer));
            }
            lines.push(line);
            i = i + 1;
        }
        lines
    }

    /// Renders a frame as a kitty-style graphics transmission. The frame
    /// keeps its full resolution; only the claimed cell rectangle comes
    /// from the sizing policy.
    #[verifier::rlimit(100)]
    #[verifier::spinoff_prover]
    pub fn render(&self, frame: &Frame, options: RenderOptions) -> (r: Result<
        RenderedFrame,
        RimgError,
    >)
        requires
            frame.pixels.wf(),
            frame.pixels.width >= 1,
            frame.pixels.height >= 1,
            options.wf(),
        ensures
            kitty_render_post(*frame, options, r),
    {
        let cells = kitty_cell_allocation(
            options.sizing.width_cells, options.sizing.height_cells,
            frame.pixels.width(), frame.pixels.height(),
            options.terminal.columns, options.terminal.rows);
        let mut image = frame.pixels.duplicate();
        blend_transparency(&mut image, options.background);
        let png = match encode_png(&image, "kitty") {
            Ok(png) => png,
            Err(err) => {
                return Err(err);
            },
        };
        if png.len() > usize::MAX / 8 {
            return Err(RimgError::other(String::from_str(
                "encoded image too large to chunk")));
        }
        let image_id = current_image_id();
        let lines = self.build_chunks(
            png.as_slice(), cells.0, cells.1, image.width(), image.height(), image_id,
            options.multiplexer);
        let rendered = RenderedFrame {
            lines,
            width_cells: cells.0,
            height_cells: 0,
            delay_ms: frame.delay_ms,
        };
        proof {
            let blended = spec_blended(frame.pixels.data@, frame.pixels.width as int,
                options.background);
            let enc = base64_of(png_encoding_of(blended, frame.pixels.width as int,
                frame.pixels.height as int));
            let spec_cells = spec_kitty_cells(options.sizing.width_cells,
                options.sizing.height_cells, frame.pixels.width as int,
                frame.pixels.height as int, options.terminal.columns as int,
                options.terminal.rows as int);
            assert(cells.0 as int == spec_cells.0 && cells.1 as int == spec_cells.1);
            assert(spec_kitty_lines_some_id(rendered.lines@, enc,
                frame.pixels.width as int, frame.pixels.height as int, spec_cells.0,
                spec_cells.1, options.multiplexer)) by {
                assert(spec_kitty_lines_ok(rendered.lines@, enc, image_id as int,
                    frame.pixels.width as int, frame.pixels.height as int, spec_cells.0,
                    spec_cells.1, options.multiplexer));
            };
        }
        Ok(rendered)
    }
}

} // verus!
