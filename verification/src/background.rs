//! Background resolution and alpha compositing for transparent pixels.
//!
//! A transparent pixel is backed by a solid color, a pattern color, or a
//! checkerboard of the two; partially transparent pixels are blended
//! against that background and forced opaque.

use vstd::prelude::*;

use crate::config::RgbColor;
use crate::frame::RgbaBuffer;

verus! {

/// Optional solid and pattern colors for backing transparent pixels, and
/// the checkerboard tile scale. Both colors present means a checkerboard;
/// both absent means transparency is left alone.
#[derive(Debug, Clone, Copy, PartialEq)]
pub struct BackgroundStyle {
    pub color: Option<RgbColor>,
    pub pattern: Option<RgbColor>,
    pub pattern_size: u16,
}

/// Whether `(x, y)` falls on the pattern square of the checkerboard. The
/// tile is four pixels times the pattern scale (at least one).
pub open spec fn spec_checkerboard(x: int, y: int, pattern_size: int) -> bool {
    let size = if pattern_size < 1 { 1int } else { pattern_size };
    let tile = size * 4;
    (x / tile + y / tile) % 2 == 0
}

/// The background color behind pixel `(x, y)`, if any is configured:
/// the solid color alone, the pattern color alone, or their checkerboard.
pub open spec fn spec_background_rgb(x: int, y: int, background: BackgroundStyle) -> Option<
    RgbColor,
> {
    match (background.color, background.pattern) {
        (None, None) => None,
        (Some(color), None) => Some(color),
        (None, Some(pattern)) => Some(pattern),
        (Some(color), Some(pattern)) => if spec_checkerboard(
            x,
            y,
            background.pattern_size as int,
        ) {
            Some(pattern)
        } else {
            Some(color)
        },
    }
}

/// Whether `(x, y)` falls on the pattern square of the checkerboard.
pub fn checkerboard(x: u32, y: u32, pattern_size: u16) -> (r: bool)
    ensures
        r == spec_checkerboard(x as int, y as int, pattern_size as int),
{
    let size: u64 = if pattern_size < 1 { 1 } else { pattern_size as u64 };
    let tile: u64 = size * 4;
    ((x as u64) / tile + (y as u64) / tile) % 2 == 0
}

/// The background color behind pixel `(x, y)`, if any is configured.
pub fn background_rgb(x: u32, y: u32, background: BackgroundStyle) -> (r: Option<RgbColor>)
    ensures
        r == spec_background_rgb(x as int, y as int, background),
{
    match (background.color, background.pattern) {
        (None, None) => None,
        (Some(color), None) => Some(color),
        (None, Some(pattern)) => Some(pattern),
        (Some(color), Some(pattern)) => {
            if checkerboard(x, y, background.pattern_size) {
                Some(pattern)
            } else {
                Some(color)
            }
        },
    }
}

/// One channel of `fg` blended over `bg` at the given alpha:
/// `fg*alpha + bg*(1-alpha)` with alpha in 0..=1, rounded to nearest.
pub open spec fn spec_blend_channel(fg: int, bg: int, alpha: int) -> int {
    ((fg * alpha + bg * (255 - alpha)) * 2 + 255) / 510
}

/// Blends one channel of a partially transparent pixel over a background
/// channel, rounding to the nearest value.
pub fn blend_channel(fg: u8, bg: u8, alpha: u8) -> (r: u8)
    ensures
        r == spec_blend_channel(fg as int, bg as int, alpha as int),
{
    proof {
        assert((fg as int) * (alpha as int) + (bg as int) * (255 - alpha as int)
            <= 255 * 255) by (nonlinear_arith)
            requires fg <= 255u8 && bg <= 255u8 && alpha <= 255u8;
        assert((fg as int) * (alpha as int) >= 0 && (bg as int) * (255 - alpha as int) >= 0)
            by (nonlinear_arith)
            requires fg >= 0u8 && bg >= 0u8 && 0u8 <= alpha <= 255u8;
    }
    let num: u32 = (fg as u32) * (alpha as u32) + (bg as u32) * (255 - alpha as u32);
    ((num * 2 + 255) / 510) as u8
}

/// Channel `ch` (red, green, blue) of a color.
pub open spec fn spec_rgb_channel(c: RgbColor, ch: int) -> u8 {
    if ch == 0 { c.r } else if ch == 1 { c.g } else { c.b }
}

/// Byte `i` of a pixel buffer after background compositing: opaque pixels
/// and pixels with no configured background keep their bytes; others have
/// their color channels blended and their alpha forced opaque.
pub open spec fn spec_blended_byte(
    data: Seq<u8>,
    width: int,
    background: BackgroundStyle,
    i: int,
) -> u8 {
    let p = i / 4;
    let ch = i % 4;
    let x = p % width;
    let y = p / width;
    let alpha = data[4 * p + 3];
    if alpha == 255 {
        data[i]
    } else {
        match spec_background_rgb(x, y, background) {
            None => data[i],
            Some(bgc) => if ch == 3 {
                255u8
            } else {
                spec_blend_channel(
                    data[i] as int,
                    spec_rgb_channel(bgc, ch) as int,
                    alpha as int,
                ) as u8
            },
        }
    }
}

/// A whole pixel buffer after background compositing.
pub open spec fn spec_blended(data: Seq<u8>, width: int, background: BackgroundStyle) -> Seq<u8> {
    Seq::new(data.len(), |i: int| spec_blended_byte(data, width, background, i))
}

proof fn lemma_byte_split(p: int, ch: int)
    requires
        p >= 0,
        0 <= ch < 4,
    ensures
        (4 * p + ch) / 4 == p,
        (4 * p + ch) % 4 == ch,
{
    assert((4 * p + ch) / 4 == p && (4 * p + ch) % 4 == ch) by (nonlinear_arith)
        requires p >= 0 && 0 <= ch < 4;
}

/// Blends every not-fully-opaque pixel against the configured background,
/// in place. With no background configured, the buffer is unchanged.
pub fn blend_transparency(image: &mut RgbaBuffer, background: BackgroundStyle)
    requires
        old(image).wf(),
    ensures
        final(image).wf(),
        final(image).width == old(image).width,
        final(image).height == old(image).height,
        final(image).data@ == spec_blended(old(image).data@, old(image).width as int, background),
{
    let ghost orig = image.data@;
    let ghost w = image.width as int;
    if no_background(background) {
        proof {
            assert forall|i: int| 0 <= i < orig.len()
                implies spec_blended_byte(orig, w, background, i) == orig[i] by {
                let p = i / 4;
                lemma_byte_split(p, i % 4);
            };
            assert(image.data@ =~= spec_blended(orig, w, background));
        }
        return;
    }
    let width = image.width;
    let height = image.height;
    let n: usize = image.data.len();
    let count: usize = n / 4;
    proof {
        assert(count == (width as int) * (height as int) && n == 4 * count) by (nonlinear_arith)
            requires
                n == 4 * (width as int) * (height as int) && count == n as int / 4;
    }
    let mut p: usize = 0;
    while p < count
        invariant
            p <= count,
            width == image.width,
            height == image.height,
            w == width as int,
            image.data@.len() == orig.len(),
            orig.len() == n,
            n == 4 * count,
            count == (width as int) * (height as int),
            width > 0 || count == 0,
            forall|k: int| 0 <= k < 4 * p
                ==> image.data@[k] == spec_blended_byte(orig, w, background, k),
            forall|k: int| 4 * p <= k < orig.len() ==> image.data@[k] == orig[k],
        decreases count - p,
    {
        let idx: usize = 4 * p;
        proof {
            lemma_byte_split(p as int, 0);
            lemma_byte_split(p as int, 1);
            lemma_byte_split(p as int, 2);
            lemma_byte_split(p as int, 3);
            assert((p as int) / (width as int) < height as int) by (nonlinear_arith)
                requires
                    width as int >= 1 && 0 <= (p as int) < (width as int) * (height as int),
        }
        let x: u32 = (p % (width as usize)) as u32;
        let y: u32 = (p / (width as usize)) as u32;
        let alpha = image.data[idx + 3];
        if alpha < 255 {
            if let Some(bgc) = background_rgb(x, y, background) {
                let fr = image.data[idx];
                let fg = image.data[idx + 1];
                let fb = image.data[idx + 2];
                image.data.set(idx, blend_channel(fr, bgc.r, alpha));
                image.data.set(idx + 1, blend_channel(fg, bgc.g, alpha));
                image.data.set(idx + 2, blend_channel(fb, bgc.b, alpha));
                image.data.set(idx + 3, 255);
            }
        }
        proof {
            assert forall|k: int| 0 <= k < 4 * (p + 1)
                implies image.data@[k] == spec_blended_byte(orig, w, background, k) by {
                if k >= 4 * p {
                    lemma_byte_split(p as int, k - 4 * (p as int));
                }
            };
        }
        p = p + 1;
    }
    proof {
        assert(image.data@ =~= spec_blended(orig, w, background));
    }
}

/// True when no background color is configured at all.
fn no_background(background: BackgroundStyle) -> (r: bool)
    ensures
        r == (background.color is None && background.pattern is None),
{
    background.color.is_none() && background.pattern.is_none()
}

} // verus!
