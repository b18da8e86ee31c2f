//! The sixel raster protocol: everything around the native encoder.
//!
//! The native dithering and encoding routine is a foreign call the
//! library cannot make itself; the caller drives it between `prepare`,
//! which composites the frame and pads its rows to sixel's six-row
//! grouping, and `finish`, which wraps the encoder's text output in a
//! rendered frame.

use vstd::prelude::*;

use crate::backend::{RenderOptions, RenderedFrame};
use crate::background::{blend_transparency, spec_blended};
use crate::config::BackendKind;
use crate::error::RimgError;
use crate::frame::Frame;
use crate::resample::{scale_to, spec_scaled_data, ResampleFilter};
use crate::sizing::{graphics_target, spec_graphics_target};
use crate::text::{int_str, push_char, push_i64};

verus! {

/// How many fully transparent filler rows bring `height` up to a
/// multiple of six.
pub open spec fn spec_sixel_pad_rows(height: int) -> int {
    (6 - height % 6) % 6
}

/// The pixel bytes handed to the native encoder: the composited rows
/// followed by the zeroed filler rows.
pub open spec fn spec_sixel_padded(data: Seq<u8>, width: int, height: int) -> Seq<u8> {
    data + Seq::new((4 * width * spec_sixel_pad_rows(height)) as nat, |i: int| 0u8)
}

/// A frame made ready for the native sixel encoder: padded RGBA bytes,
/// their dimensions, and what the rendered frame will carry.
#[derive(Debug)]
pub struct SixelPrepared {
    /// Row-major RGBA bytes, rows padded to a multiple of six.
    pub data: Vec<u8>,
    /// Pixel width of the padded image.
    pub width: u32,
    /// Pixel height of the padded image; a multiple of six.
    pub height: u32,
    /// The cell width the rendered frame claims.
    pub width_cells: u32,
    /// The source frame's display delay.
    pub delay_ms: u64,
}

/// What preparing a frame for the sixel encoder yields: it succeeds
/// exactly when the padded image fits the pixel type and address space,
/// and then holds the frame scaled per policy, composited, and padded to
/// six-row groups, with the claimed cell width from the sizing engine.
pub open spec fn sixel_prepare_post(
    frame: Frame,
    options: RenderOptions,
    r: Result<SixelPrepared, RimgError>,
) -> bool {
    let t = spec_graphics_target(
        frame.pixels.width as int, frame.pixels.height as int, options.sizing,
        options.terminal.columns as int, options.terminal.rows as int);
    let filter = if options.sizing.antialias {
        ResampleFilter::Lanczos3
    } else {
        ResampleFilter::Nearest
    };
    let scaled = spec_scaled_data(frame.pixels.data@, frame.pixels.width as int,
        frame.pixels.height as int, t.0, t.1, filter);
    let blended = spec_blended(scaled, t.0, options.background);
    let padded_height = t.1 + spec_sixel_pad_rows(t.1);
    &&& (r is Ok <==> (4 * t.0 * padded_height <= usize::MAX
        && padded_height <= 0xffff_ffff))
    &&& r is Ok ==> {
        let p = r->Ok_0;
        &&& p.data@ == spec_sixel_padded(blended, t.0, t.1)
        &&& p.width == t.0
        &&& p.height == padded_height
        &&& p.height % 6 == 0
        &&& p.width_cells == t.2
        &&& p.delay_ms == frame.delay_ms
    }
}

/// The sixel raster protocol encoder. Its native dithering routine is
/// driven by the caller around `prepare` and `finish`.
#[derive(Debug)]
pub struct SixelBackend;

impl Default for SixelBackend {
    fn default() -> (r: Self) {
        SixelBackend
    }
}

impl SixelBackend {
    /// The backend's name.
    pub fn name(&self) -> (r: &'static str)
        ensures
            r@ == "sixel"@,
    {
        "sixel"
    }

    /// The backend kind this renderer serves.
    pub fn supported_kind(&self) -> (r: BackendKind)
        ensures
            r == BackendKind::Sixel,
    {
        BackendKind::Sixel
    }

    /// Scales and composites a frame and pads its rows to a multiple of
    /// six, ready for the native encoder.
    pub fn prepare(&self, frame: &Frame, options: RenderOptions) -> (r: Result<
        SixelPrepared,
        RimgError,
    >)
        requires
            frame.pixels.wf(),
            frame.pixels.width >= 1,
            frame.pixels.height >= 1,
            options.wf(),
        ensures
            sixel_prepare_post(*frame, options, r),
    {
        let t = graphics_target(
            frame.pixels.width(), frame.pixels.height(), &options.sizing,
            options.terminal.columns, options.terminal.rows);
        let filter = if options.sizing.antialias {
            ResampleFilter::Lanczos3
        } else {
            ResampleFilter::Nearest
        };
        let pad: u32 = (6 - t.height_px % 6) % 6;
        let padded_height: u64 = t.height_px as u64 + pad as u64;
        proof {
            assert(4 * (t.width_px as int) * (padded_height as int)
                <= 4 * 0xffff_ffff * 0x1_0000_0010) by (nonlinear_arith)
                requires t.width_px <= 0xffff_ffffu32 && padded_height <= 0x1_0000_0010u64;
        }
        let need: u128 = 4 * (t.width_px as u128) * (padded_height as u128);
        proof {
            assert(need as int == 4 * (t.width_px as int) * (padded_height as int))
                by (nonlinear_arith)
                requires
                    need == 4 * (t.width_px as u128) * (padded_height as u128)
                        && t.width_px <= 0xffff_ffffu32 && padded_height <= 0x1_0000_0010u64,
        }
        if need > usize::MAX as u128 || padded_height > 0xffff_ffff {
            return Err(RimgError::other(String::from_str(
                "render target too large for this platform")));
        }
        proof {
            assert((t.width_px as int) * (pad as int) <= usize::MAX as int)
                by (nonlinear_arith)
                requires
                    4 * (t.width_px as int) * ((t.height_px as int) + (pad as int))
                        <= usize::MAX as int
                        && t.width_px >= 0u32 && t.height_px >= 0u32 && pad >= 0u32,
        }
        proof {
            assert(4 * (t.width_px as int) * (t.height_px as int)
                <= 4 * (t.width_px as int) * (padded_height as int)) by (nonlinear_arith)
                requires t.width_px >= 0u32 && t.height_px as int <= padded_height as int;
        }
        let mut image = scale_to(&frame.pixels, t.width_px, t.height_px, filter);
        blend_transparency(&mut image, options.background);
        let ghost blended = image.data@;
        let mut data = image.data;
        let extra_pixels: usize = (t.width_px as usize) * (pad as usize);
        let mut i: usize = 0;
        proof {
            assert((t.width_px as int) * (pad as int) * 4
                == 4 * (t.width_px as int) * (pad as int)) by (nonlinear_arith);
            assert(4 * (t.width_px as int) * (padded_height as int)
                == 4 * (t.width_px as int) * (t.height_px as int)
                    + 4 * (t.width_px as int) * (pad as int)) by (nonlinear_arith)
                requires padded_height as int == t.height_px as int + pad as int;
        }
        while i < extra_pixels
            invariant
                i <= extra_pixels,
                data@.len() == blended.len() + 4 * i,
                data@ == blended + Seq::new((4 * i) as nat, |k: int| 0u8),
                blended.len() + 4 * extra_pixels <= usize::MAX,
            decreases extra_pixels - i,
        {
            data.push(0);
            data.push(0);
            data.push(0);
            data.push(0);
            proof {
                assert(data@ =~= blended + Seq::new((4 * (i + 1)) as nat, |k: int| 0u8));
            }
            i = i + 1;
        }
        proof {
            assert(data@ =~= spec_sixel_padded(blended, t.width_px as int, t.height_px as int));
        }
        Ok(SixelPrepared {
            data,
            width: t.width_px,
            height: (padded_height as u32),
            width_cells: t.width_cells,
            delay_ms: frame.delay_ms,
        })
    }

    /// Wraps the native encoder's text output as a rendered frame: one
    /// line, newline-terminated, with no height accounting.
    pub fn finish(&self, sixel_text: String, width_cells: u32, delay_ms: u64) -> (r:
        RenderedFrame)
        ensures
            r.lines@.len() == 1,
            r.lines@[0]@ == (if sixel_text@.len() > 0 && sixel_text@.last() == '\n' {
                sixel_text@
            } else {
                sixel_text@.push('\n')
            }),
            r.width_cells == width_cells,
            r.height_cells == 0,
            r.delay_ms == delay_ms,
    {
        let mut text = sixel_text;
        let n = text.as_str().unicode_len();
        let ends_with_newline = if n > 0 {
            text.as_str().get_char(n - 1) == '\n'
        } else {
            false
        };
        if !ends_with_newline {
            push_char(&mut text, '\n');
        }
        let mut lines: Vec<String> = Vec::new();
        lines.push(text);
        RenderedFrame { lines, width_cells, height_cells: 0, delay_ms }
    }
}

/// Turns a native encoder status into a result: zero is success, any
/// other status carries the failed stage and the status value.
pub fn check_status(status: i32, message: &str) -> (r: Result<(), RimgError>)
    ensures
        r is Ok <==> status == 0,
        r is Err ==> (r->Err_0 matches RimgError::Other(m)
            && m@ == spec_status_message(message@, status as int)),
{
    if status == 0 {
        Ok(())
    } else {
        let mut msg = String::new();
        msg.append(message);
        msg.append(": status ");
        push_i64(&mut msg, status as i64);
        proof {
            assert(msg@ =~= message@ + ": status "@ + int_str(status as int));
        }
        Err(RimgError::Other(msg))
    }
}

/// The message a failed native status reports: the stage description,
/// then the status value.
pub open spec fn spec_status_message(message: Seq<char>, status: int) -> Seq<char> {
    message + ": status "@ + int_str(status)
}

/// Relies on std's `String::from_utf8`: it succeeds exactly on valid
/// UTF-8, and the resulting string holds exactly the given bytes.
#[verifier::external_body]
fn bytes_to_string(bytes: Vec<u8>) -> (r: Option<String>)
    ensures
        r is Some <==> vstd::utf8::valid_utf8(bytes@),
        r is Some ==> vstd::utf8::encode_utf8(r->0@) == bytes@,
{
    String::from_utf8(bytes).ok()
}

/// Turns the native encoder's output bytes into text, rejecting output
/// that is not valid UTF-8.
pub fn decode_sixel_output(bytes: Vec<u8>) -> (r: Result<String, RimgError>)
    ensures
        r is Ok <==> vstd::utf8::valid_utf8(bytes@),
        r is Ok ==> vstd::utf8::encode_utf8(r->Ok_0@) == bytes@,
        r is Err ==> (r->Err_0 matches RimgError::Other(m)
            && m@ == "sixel encoder produced invalid UTF-8"@),
{
    match bytes_to_string(bytes) {
        Some(text) => Ok(text),
        None => Err(RimgError::other(String::from_str(
            "sixel encoder produced invalid UTF-8"))),
    }
}

} // verus!
