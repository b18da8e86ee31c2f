//! The iTerm2-style inline graphics protocol encoder.
//!
//! The frame is composited, PNG-encoded and base64-chunked at a 4096
//! character boundary; the first chunk carries the inline-display
//! metadata, later chunks a continuation flag, and each chunk is framed
//! `ESC ] 1337 ; File = <params> : <payload> BEL`.

use vstd::prelude::*;

use vstd::math::max;

use crate::backend::{RenderOptions, RenderedFrame};
use crate::background::{blend_transparency, spec_blended};
use crate::chunk::{base64_of, spec_chunk, spec_chunk_count, Base64Chunks};
use crate::codec::{encode_png, png_encodes_ok, png_encoding_of};
use crate::config::BackendKind;
use crate::error::RimgError;
use crate::frame::Frame;
use crate::sizing::{iterm2_cell_allocation, spec_iterm2_cells};
use crate::text::{dec_str, push_char, push_u64};
use crate::tmux::{tmux_wrapped, wrap_for_tmux};

verus! {

/// Base64 characters per chunk.
pub const ITERM2_CHUNK: usize = 4096;

/// The first chunk's parameter list: inline display, total byte size,
/// cell rectangle, and aspect preservation.
pub open spec fn spec_iterm2_first_params(size: int, wc: int, hc: int) -> Seq<char> {
    "inline=1;size="@ + dec_str(size as nat) + ";width="@ + dec_str(max(wc, 1) as nat)
        + ";height="@ + dec_str(max(hc, 1) as nat) + ";preserveAspectRatio=1"@
}

/// Chunk `i` of an iTerm2-style transmission, framed and, when the output
/// passes through a multiplexer, wrapped for passthrough.
pub open spec fn spec_iterm2_line(
    enc: Seq<char>,
    total: int,
    i: int,
    size: int,
    wc: int,
    hc: int,
    multiplexer: bool,
) -> Seq<char> {
    let params = (if i == 0 {
        spec_iterm2_first_params(size, wc, hc)
    } else {
        "inline=1"@
    }) + (if i + 1 < total { ";m=1"@ } else { Seq::<char>::empty() });
    let base = "\u{1b}]1337;File="@ + params + ":"@ + spec_chunk(enc, ITERM2_CHUNK as int, i)
        + seq!['\u{7}'];
    if multiplexer { tmux_wrapped(base) } else { base }
}

/// Whether `lines` is exactly the chunked iTerm2-style transmission of
/// the encoded payload `enc`, whose raw size is `size` bytes.
pub open spec fn spec_iterm2_lines_ok(
    lines: Seq<String>,
    enc: Seq<char>,
    size: int,
    wc: int,
    hc: int,
    multiplexer: bool,
) -> bool {
    let total = spec_chunk_count(enc.len() as int, ITERM2_CHUNK as int);
    &&& lines.len() == total
    &&& forall|i: int| 0 <= i < total
        ==> #[trigger] lines[i]@ == spec_iterm2_line(enc, total, i, size, wc, hc, multiplexer)
}

/// What an iTerm2-style render returns: it fails exactly when the PNG
/// encoder does or when the encoding is too large to chunk; otherwise
/// the frame is background-composited, PNG-encoded, base64-chunked and
/// framed, with the aspect-preserving cell allocation claimed as the
/// width and no height accounting.
pub open spec fn iterm2_render_post(
    frame: Frame,
    options: RenderOptions,
    r: Result<RenderedFrame, RimgError>,
) -> bool {
    let cells = spec_iterm2_cells(
        options.sizing.width_cells, options.sizing.height_cells,
        frame.pixels.width as int, frame.pixels.height as int,
        options.terminal.columns as int, options.terminal.rows as int);
    let blended = spec_blended(frame.pixels.data@, frame.pixels.width as int,
        options.background);
    let png = png_encoding_of(blended, frame.pixels.width as int, frame.pixels.height as int);
    &&& (r is Err <==> (!png_encodes_ok(blended, frame.pixels.width as int,
        frame.pixels.height as int) || png.len() > usize::MAX as int / 8))
    &&& r is Ok ==> {
        let rf = r->Ok_0;
        &&& rf.width_cells == cells.0
        &&& rf.height_cells == 0
        &&& rf.delay_ms == frame.delay_ms
        &&& spec_iterm2_lines_ok(rf.lines@, base64_of(png), png.len() as int, cells.0,
            cells.1, options.multiplexer)
    }
}

/// The iTerm2-style graphics protocol encoder.
#[derive(Debug)]
pub struct ITerm2Backend;

impl Default for ITerm2Backend {
    fn default() -> (r: Self) {
        ITerm2Backend
    }
}

impl ITerm2Backend {
    /// The backend's name.
    pub fn name(&self) -> (r: &'static str)
        ensures
            r@ == "iterm2"@,
    {
        "iterm2"
    }

    /// The backend kind this renderer serves.
    pub fn supported_kind(&self) -> (r: BackendKind)
        ensures
            r == BackendKind::Iterm2,
    {
        BackendKind::Iterm2
    }

    /// Frames an encoded payload as iTerm2-style chunks under the given
    /// cell rectangle.
    pub fn build_chunks(
        &self,
        data: &[u8],
        width_cells: u32,
        height_cells: u32,
        multiplexer: bool,
    ) -> (r: Vec<String>)
        requires
            data@.len() <= usize::MAX as int / 8,
        ensures
            spec_iterm2_lines_ok(r@, base64_of(data@), data@.len() as int, width_cells as int,
                height_cells as int, multiplexer),
    {
        let chunks = Base64Chunks::new(data, ITERM2_CHUNK);
        let total = chunks.len();
        let size = data.len();
        let ghost enc = base64_of(data@);
        let mut lines: Vec<String> = Vec::new();
        let mut i: usize = 0;
        while i < total
            invariant
                i <= total,
                chunks.wf(),
                chunks.spec_encoded() == enc,
                chunks.spec_chunk_size() == ITERM2_CHUNK as int,
                total == spec_chunk_count(enc.len() as int, ITERM2_CHUNK as int),
                size == data@.len(),
                lines@.len() == i,
                forall|j: int| 0 <= j < i
                    ==> #[trigger] lines@[j]@ == spec_iterm2_line(enc, total as int, j,
                        size as int, width_cells as int, height_cells as int, multiplexer),
            decreases total - i,
        {
            let mut params = String::new();
            if i == 0 {
                params.append("inline=1;size=");
                push_u64(&mut params, size as u64);
                params.append(";width=");
                push_u64(&mut params, if width_cells < 1 { 1 } else { width_cells as u64 });
                params.append(";height=");
                push_u64(&mut params, if height_cells < 1 { 1 } else { height_cells as u64 });
                params.append(";preserveAspectRatio=1");
                proof {
                    assert(params@ =~= spec_iterm2_first_params(size as int, width_cells as int,
                        height_cells as int));
                }
            } else {
                params.append("inline=1");
            }
            if i + 1 < total {
                params.append(";m=1");
            }
            let mut line = String::from_str("\u{1b}]1337;File=");
            line.append(params.as_str());
            line.append(":");
            let piece = chunks.chunk_at(i);
            line.append(piece);
            push_char(&mut line, '\u{7}');
            let line = if multiplexer {
                wrap_for_tmux(line.as_str())
            } else {
                line
            };
            proof {
                assert(line@ =~= spec_iterm2_line(enc, total as int, i as int, size as int,
                    width_cells as int, height_cells as int, multiplexer));
            }
            lines.push(line);
            i = i + 1;
        }
        lines
    }

    /// Renders a frame as an iTerm2-style graphics transmission. The
    /// frame keeps its full resolution; the claimed cell rectangle
    /// preserves the image aspect ratio unless both limits are explicit.
    pub fn render(&self, frame: &Frame, options: RenderOptions) -> (r: Result<
        RenderedFrame,
        RimgError,
    >)
        requires
            frame.pixels.wf(),
            frame.pixels.width >= 1,
            frame.pixels.height >= 1,
            options.wf(),
        ensures
            iterm2_render_post(*frame, options, r),
    {
        let cells = iterm2_cell_allocation(
            options.sizing.width_cells, options.sizing.height_cells,
            frame.pixels.width(), frame.pixels.height(),
            options.terminal.columns, options.terminal.rows);
        let mut image = frame.pixels.duplicate();
        blend_transparency(&mut image, options.background);
        let png = match encode_png(&image, "iterm2") {
            Ok(png) => png,
            Err(err) => {
                return Err(err);
            },
        };
        if png.len() > usize::MAX / 8 {
            return Err(RimgError::other(String::from_str(
                "encoded image too large to chunk")));
        }
        let lines = self.build_chunks(png.as_slice(), cells.0, cells.1, options.multiplexer);
        Ok(RenderedFrame {
            lines,
            width_cells: cells.0,
            height_cells: 0,
            delay_ms: frame.delay_ms,
        })
    }
}

} // verus!
