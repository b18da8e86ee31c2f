//! Removing uniform borders from images: a fixed-width border crop, and
//! an automatic crop that detects the background color from the top-left
//! corner and trims every edge row and column similar to it.

use vstd::prelude::*;

use crate::frame::{pixel_at, Rgba, RgbaBuffer};

verus! {

/// Per-channel threshold within which a pixel counts as background.
pub const COLOR_THRESHOLD: u8 = 10;

/// Whether two pixels agree within the threshold on every channel,
/// alpha included.
pub open spec fn spec_pixels_similar(a: Rgba, b: Rgba, threshold: int) -> bool {
    &&& -threshold <= a.r - b.r <= threshold
    &&& -threshold <= a.g - b.g <= threshold
    &&& -threshold <= a.b - b.b <= threshold
    &&& -threshold <= a.a - b.a <= threshold
}

/// Whether one channel pair agrees within the threshold.
fn channel_within(a: u8, b: u8, threshold: u8) -> (r: bool)
    ensures
        r == (-(threshold as int) <= a - b <= threshold as int),
{
    if a >= b {
        a - b <= threshold
    } else {
        b - a <= threshold
    }
}

/// Whether two pixels agree within the threshold on every channel.
pub fn colors_similar(a: Rgba, b: Rgba, threshold: u8) -> (r: bool)
    ensures
        r == spec_pixels_similar(a, b, threshold as int),
{
    channel_within(a.r, b.r, threshold) && channel_within(a.g, b.g, threshold)
        && channel_within(a.b, b.b, threshold) && channel_within(a.a, b.a, threshold)
}

/// The assumed background color: white for an empty image, else the
/// top-left corner pixel.
pub open spec fn spec_background_color(img: RgbaBuffer) -> Rgba {
    if img.width == 0 || img.height == 0 {
        Rgba { r: 255, g: 255, b: 255, a: 255 }
    } else {
        img.spec_pixel(0, 0)
    }
}

/// Detects the background color by sampling the top-left corner pixel.
pub fn detect_background_color(img: &RgbaBuffer) -> (r: Rgba)
    requires
        img.wf(),
    ensures
        r == spec_background_color(*img),
{
    if img.width() == 0 || img.height() == 0 {
        Rgba { r: 255, g: 255, b: 255, a: 255 }
    } else {
        img.get_pixel(0, 0)
    }
}

/// Whether column `x` holds any pixel that is not background.
pub open spec fn spec_col_content(data: Seq<u8>, w: int, h: int, x: int, bg: Rgba) -> bool {
    exists|y: int| 0 <= y < h
        && !spec_pixels_similar(#[trigger] pixel_at(data, w, x, y), bg, COLOR_THRESHOLD as int)
}

/// Whether row `y` holds any pixel that is not background.
pub open spec fn spec_row_content(data: Seq<u8>, w: int, h: int, y: int, bg: Rgba) -> bool {
    exists|x: int| 0 <= x < w
        && !spec_pixels_similar(#[trigger] pixel_at(data, w, x, y), bg, COLOR_THRESHOLD as int)
}

/// The first column at or after `x` with content; zero when none has any.
pub open spec fn spec_first_content_col(data: Seq<u8>, w: int, h: int, bg: Rgba, x: int) -> int
    decreases w - x,
{
    if x >= w {
        0
    } else if spec_col_content(data, w, h, x, bg) {
        x
    } else {
        spec_first_content_col(data, w, h, bg, x + 1)
    }
}

/// The last column at or before `x` with content; the last column of the
/// image when none has any.
pub open spec fn spec_last_content_col(data: Seq<u8>, w: int, h: int, bg: Rgba, x: int) -> int
    decreases x + 1,
{
    if x < 0 {
        w - 1
    } else if spec_col_content(data, w, h, x, bg) {
        x
    } else {
        spec_last_content_col(data, w, h, bg, x - 1)
    }
}

/// The first row at or after `y` with content; zero when none has any.
pub open spec fn spec_first_content_row(data: Seq<u8>, w: int, h: int, bg: Rgba, y: int) -> int
    decreases h - y,
{
    if y >= h {
        0
    } else if spec_row_content(data, w, h, y, bg) {
        y
    } else {
        spec_first_content_row(data, w, h, bg, y + 1)
    }
}

/// The last row at or before `y` with content; the last row of the image
/// when none has any.
pub open spec fn spec_last_content_row(data: Seq<u8>, w: int, h: int, bg: Rgba, y: int) -> int
    decreases y + 1,
{
    if y < 0 {
        h - 1
    } else if spec_row_content(data, w, h, y, bg) {
        y
    } else {
        spec_last_content_row(data, w, h, bg, y - 1)
    }
}

/// The crop rectangle scanning inward from every edge finds: left, top,
/// right, bottom; nothing when the edges collapse.
pub open spec fn spec_crop_bounds(img: RgbaBuffer, bg: Rgba) -> Option<(int, int, int, int)> {
    let data = img.data@;
    let w = img.width as int;
    let h = img.height as int;
    if w == 0 || h == 0 {
        None
    } else {
        let left = spec_first_content_col(data, w, h, bg, 0);
        let right = spec_last_content_col(data, w, h, bg, w - 1);
        let top = spec_first_content_row(data, w, h, bg, 0);
        let bottom = spec_last_content_row(data, w, h, bg, h - 1);
        if left >= right || top >= bottom {
            None
        } else {
            Some((left, top, right, bottom))
        }
    }
}

/// Whether column `x` holds any pixel that is not background.
fn col_has_content(img: &RgbaBuffer, x: u32, bg: Rgba) -> (r: bool)
    requires
        img.wf(),
        x < img.width,
    ensures
        r == spec_col_content(img.data@, img.width as int, img.height as int, x as int, bg),
{
    let h = img.height();
    let mut y: u32 = 0;
    while y < h
        invariant
            y <= h,
            h == img.height,
            x < img.width,
            img.wf(),
            forall|j: int| 0 <= j < y ==> spec_pixels_similar(
                #[trigger] pixel_at(img.data@, img.width as int, x as int, j), bg,
                COLOR_THRESHOLD as int),
        decreases h - y,
    {
        if !colors_similar(img.get_pixel(x, y), bg, COLOR_THRESHOLD) {
            return true;
        }
        y = y + 1;
    }
    false
}

/// Whether row `y` holds any pixel that is not background.
fn row_has_content(img: &RgbaBuffer, y: u32, bg: Rgba) -> (r: bool)
    requires
        img.wf(),
        y < img.height,
    ensures
        r == spec_row_content(img.data@, img.width as int, img.height as int, y as int, bg),
{
    let w = img.width();
    let mut x: u32 = 0;
    while x < w
        invariant
            x <= w,
            w == img.width,
            y < img.height,
            img.wf(),
            forall|j: int| 0 <= j < x ==> spec_pixels_similar(
                #[trigger] pixel_at(img.data@, img.width as int, j, y as int), bg,
                COLOR_THRESHOLD as int),
        decreases w - x,
    {
        if !colors_similar(img.get_pixel(x, y), bg, COLOR_THRESHOLD) {
            return true;
        }
        x = x + 1;
    }
    false
}

/// Finds the crop rectangle by scanning inward from every edge.
pub fn find_crop_bounds(img: &RgbaBuffer, bg_color: Rgba) -> (r: Option<(u32, u32, u32, u32)>)
    requires
        img.wf(),
    ensures
        (r is Some <==> spec_crop_bounds(*img, bg_color) is Some),
        r is Some ==> {
            let (l, t, rt, b) = r->0;
            &&& spec_crop_bounds(*img, bg_color)
                == Some((l as int, t as int, rt as int, b as int))
            &&& l < rt < img.width
            &&& t < b < img.height
        },
{
    let w = img.width();
    let h = img.height();
    if w == 0 || h == 0 {
        return None;
    }
    let ghost data = img.data@;

    let mut left: u32 = 0;
    let mut x: u32 = 0;
    let mut found = false;
    while x < w && !found
        invariant
            x <= w,
            w == img.width,
            h == img.height,
            data == img.data@,
            img.wf(),
            !found ==> left == 0 && spec_first_content_col(data, w as int, h as int,
                bg_color, 0) == spec_first_content_col(data, w as int, h as int, bg_color,
                x as int),
            found ==> left < w && spec_first_content_col(data, w as int, h as int, bg_color, 0)
                == left as int,
        decreases w - x + (if found { 0int } else { 1int }),
    {
        if col_has_content(img, x, bg_color) {
            proof {
                reveal_with_fuel(spec_first_content_col, 2);
                assert(spec_col_content(data, w as int, h as int, x as int, bg_color));
                assert(!(x as int >= w as int));
                assert(spec_first_content_col(data, w as int, h as int, bg_color, x as int)
                    == x as int);
            }
            left = x;
            found = true;
        } else {
            proof {
                reveal_with_fuel(spec_first_content_col, 2);
                assert(spec_first_content_col(data, w as int, h as int, bg_color, x as int)
                    == spec_first_content_col(data, w as int, h as int, bg_color, x as int + 1));
            }
            x = x + 1;
        }
    }

    let mut right: u32 = w - 1;
    let mut xi: u32 = w;
    let mut found_r = false;
    while xi > 0 && !found_r
        invariant
            xi <= w,
            w == img.width,
            h == img.height,
            data == img.data@,
            w >= 1,
            img.wf(),
            !found_r ==> right == w - 1 && spec_last_content_col(data, w as int, h as int,
                bg_color, w as int - 1) == spec_last_content_col(data, w as int, h as int,
                bg_color, xi as int - 1),
            found_r ==> right < w
                && spec_last_content_col(data, w as int, h as int, bg_color, w as int - 1)
                    == right as int,
        decreases xi + (if found_r { 0int } else { 1int }),
    {
        if col_has_content(img, xi - 1, bg_color) {
            proof {
                reveal_with_fuel(spec_last_content_col, 2);
                assert(spec_last_content_col(data, w as int, h as int, bg_color, xi as int - 1)
                    == xi as int - 1);
            }
            right = xi - 1;
            found_r = true;
        } else {
            proof {
                reveal_with_fuel(spec_last_content_col, 2);
                assert(spec_last_content_col(data, w as int, h as int, bg_color, xi as int - 1)
                    == spec_last_content_col(data, w as int, h as int, bg_color, xi as int - 2));
            }
            xi = xi - 1;
        }
    }
    proof {
        if !found {
            assert(spec_first_content_col(data, w as int, h as int, bg_color, w as int) == 0);
        }
        if !found_r {
            assert(spec_last_content_col(data, w as int, h as int, bg_color, -1)
                == w as int - 1);
        }
    }

    let mut top: u32 = 0;
    let mut y: u32 = 0;
    let mut found_t = false;
    while y < h && !found_t
        invariant
            y <= h,
            w == img.width,
            h == img.height,
            data == img.data@,
            img.wf(),
            !found_t ==> top == 0 && spec_first_content_row(data, w as int, h as int,
                bg_color, 0) == spec_first_content_row(data, w as int, h as int, bg_color,
                y as int),
            found_t ==> top < h && spec_first_content_row(data, w as int, h as int, bg_color, 0)
                == top as int,
        decreases h - y + (if found_t { 0int } else { 1int }),
    {
        if row_has_content(img, y, bg_color) {
            proof {
                reveal_with_fuel(spec_first_content_row, 2);
                assert(spec_first_content_row(data, w as int, h as int, bg_color, y as int)
                    == y as int);
            }
            top = y;
            found_t = true;
        } else {
            proof {
                reveal_with_fuel(spec_first_content_row, 2);
                assert(spec_first_content_row(data, w as int, h as int, bg_color, y as int)
                    == spec_first_content_row(data, w as int, h as int, bg_color, y as int + 1));
            }
            y = y + 1;
        }
    }

    let mut bottom: u32 = h - 1;
    let mut yi: u32 = h;
    let mut found_b = false;
    while yi > 0 && !found_b
        invariant
            yi <= h,
            w == img.width,
            h == img.height,
            data == img.data@,
            h >= 1,
            img.wf(),
            !found_b ==> bottom == h - 1 && spec_last_content_row(data, w as int, h as int,
                bg_color, h as int - 1) == spec_last_content_row(data, w as int, h as int,
                bg_color, yi as int - 1),
            found_b ==> bottom < h
                && spec_last_content_row(data, w as int, h as int, bg_color, h as int - 1)
                    == bottom as int,
        decreases yi + (if found_b { 0int } else { 1int }),
    {
        if row_has_content(img, yi - 1, bg_color) {
            proof {
                reveal_with_fuel(spec_last_content_row, 2);
                assert(spec_last_content_row(data, w as int, h as int, bg_color, yi as int - 1)
                    == yi as int - 1);
            }
            bottom = yi - 1;
            found_b = true;
        } else {
            proof {
                reveal_with_fuel(spec_last_content_row, 2);
                assert(spec_last_content_row(data, w as int, h as int, bg_color, yi as int - 1)
                    == spec_last_content_row(data, w as int, h as int, bg_color, yi as int - 2));
            }
            yi = yi - 1;
        }
    }
    proof {
        if !found_t {
            assert(spec_first_content_row(data, w as int, h as int, bg_color, h as int) == 0);
        }
        if !found_b {
            assert(spec_last_content_row(data, w as int, h as int, bg_color, -1)
                == h as int - 1);
        }
    }

    if left >= right || top >= bottom {
        None
    } else {
        Some((left, top, right, bottom))
    }
}

/// Byte `i` of the rectangle `cw` by `ch` cut from `(l, t)` of a buffer
/// of width `w`.
pub open spec fn spec_crop_byte(
    data: Seq<u8>,
    w: int,
    l: int,
    t: int,
    cw: int,
    i: int,
) -> u8 {
    let p = i / 4;
    let c = i % 4;
    let x = p % cw;
    let y = p / cw;
    data[4 * ((t + y) * w + (l + x)) + c]
}

/// The bytes of the rectangle `cw` by `ch` cut from `(l, t)`.
pub open spec fn spec_cropped(
    data: Seq<u8>,
    w: int,
    l: int,
    t: int,
    cw: int,
    ch: int,
) -> Seq<u8> {
    Seq::new((4 * cw * ch) as nat, |i: int| spec_crop_byte(data, w, l, t, cw, i))
}

/// Cuts the rectangle `cw` by `ch` at `(l, t)` out of a buffer.
fn crop_region(img: &RgbaBuffer, l: u32, t: u32, cw: u32, ch: u32) -> (r: RgbaBuffer)
    requires
        img.wf(),
        cw >= 1,
        ch >= 1,
        l + cw <= img.width,
        t + ch <= img.height,
    ensures
        r.wf(),
        r.width == cw,
        r.height == ch,
        r.data@ == spec_cropped(img.data@, img.width as int, l as int, t as int, cw as int,
            ch as int),
{
    let ghost data = img.data@;
    let ghost w = img.width as int;
    proof {
        assert((cw as int) * (ch as int) <= (img.width as int) * (img.height as int))
            by (nonlinear_arith)
            requires
                0 < (cw as int) <= (img.width as int) && 0 < (ch as int) <= (img.height as int);
        assert(4 * ((cw as int) * (ch as int)) == 4 * (cw as int) * (ch as int)
            && 4 * ((img.width as int) * (img.height as int))
                == 4 * (img.width as int) * (img.height as int)) by (nonlinear_arith);
    }
    let mut out: Vec<u8> = Vec::new();
    let mut y: u32 = 0;
    proof {
        assert(4 * 0 * (cw as int) == 0) by (nonlinear_arith);
    }
    while y < ch
        invariant
            y <= ch,
            img.wf(),
            data == img.data@,
            w == img.width as int,
            l + cw <= img.width,
            t + ch <= img.height,
            cw >= 1,
            (cw as int) * (ch as int) * 4 <= data.len(),
            out@.len() == 4 * (y as int) * (cw as int),
            forall|k: int| 0 <= k < out@.len()
                ==> out@[k] == spec_crop_byte(data, w, l as int, t as int, cw as int, k),
        decreases ch - y,
    {
        let mut x: u32 = 0;
        proof {
            assert(4 * ((y as int) * (cw as int)) == 4 * (y as int) * (cw as int)
                && 4 * ((y as int) * (cw as int) + 0) == 4 * ((y as int) * (cw as int)))
                by (nonlinear_arith);
            assert((y as int) * (cw as int) + cw <= (ch as int) * (cw as int))
                by (nonlinear_arith)
                requires (y as int) < (ch as int) && cw >= 0u32;
            assert(4 * ((y as int) * (cw as int)) + 4 * (cw as int)
                == 4 * ((y as int) * (cw as int) + (cw as int))) by (nonlinear_arith);
        }
        while x < cw
            invariant
                x <= cw,
                y < ch,
                img.wf(),
                data == img.data@,
                w == img.width as int,
                l + cw <= img.width,
                t + ch <= img.height,
                cw >= 1,
                (cw as int) * (ch as int) * 4 <= data.len(),
                out@.len() == 4 * ((y as int) * (cw as int) + (x as int)),
                forall|k: int| 0 <= k < out@.len()
                    ==> out@[k] == spec_crop_byte(data, w, l as int, t as int, cw as int, k),
            decreases cw - x,
        {
            let pixel = img.get_pixel(l + x, t + y);
            proof {
                let p = (y as int) * (cw as int) + (x as int);
                assert(p * 4 < (cw as int) * (ch as int) * 4) by (nonlinear_arith)
                    requires
                        p == (y as int) * (cw as int) + (x as int) && 0 <= (x as int) < (cw as int)
                            && 0 <= (y as int) < (ch as int);
                assert((4 * p) / 4 == p && (4 * p) % 4 == 0 && (4 * p + 1) / 4 == p
                    && (4 * p + 1) % 4 == 1 && (4 * p + 2) / 4 == p && (4 * p + 2) % 4 == 2
                    && (4 * p + 3) / 4 == p && (4 * p + 3) % 4 == 3) by (nonlinear_arith)
                    requires p >= 0;
                assert(p % (cw as int) == x as int && p / (cw as int) == y as int)
                    by (nonlinear_arith)
                    requires
                        p == (y as int) * (cw as int) + (x as int) && 0 <= (x as int) < (cw as int)
                            && 0 <= (y as int) && (cw as int) >= 1,
            }
            out.push(pixel.r);
            out.push(pixel.g);
            out.push(pixel.b);
            out.push(pixel.a);
            x = x + 1;
        }
        proof {
            assert(4 * ((y as int) * (cw as int) + (cw as int))
                == 4 * ((y as int) + 1) * (cw as int)) by (nonlinear_arith);
        }
        y = y + 1;
    }
    proof {
        assert(4 * (ch as int) * (cw as int) == 4 * (cw as int) * (ch as int)
            && 4 * ((ch as int) * (cw as int)) == 4 * (ch as int) * (cw as int))
            by (nonlinear_arith);
        assert(out@ =~= spec_cropped(data, w, l as int, t as int, cw as int, ch as int));
    }
    RgbaBuffer { width: cw, height: ch, data: out }
}

/// Crops uniform borders away: the background color is detected from the
/// corner, the content rectangle is found, and the image is cut down to
/// it when that makes it smaller; otherwise it is returned unchanged.
pub fn auto_crop(img: RgbaBuffer) -> (r: RgbaBuffer)
    requires
        img.wf(),
    ensures
        r.wf(),
        ({
            let bounds = spec_crop_bounds(img, spec_background_color(img));
            if bounds is Some {
                let (l, t, rt, b) = bounds->0;
                if rt - l + 1 < img.width as int || b - t + 1 < img.height as int {
                    &&& r.width as int == rt - l + 1
                    &&& r.height as int == b - t + 1
                    &&& r.data@ == spec_cropped(img.data@, img.width as int, l, t, rt - l + 1,
                        b - t + 1)
                } else {
                    r == img
                }
            } else {
                r == img
            }
        }),
{
    let bg_color = detect_background_color(&img);
    if let Some((left, top, right, bottom)) = find_crop_bounds(&img, bg_color) {
        let crop_width = right - left + 1;
        let crop_height = bottom - top + 1;
        if crop_width < img.width() || crop_height < img.height() {
            return crop_region(&img, left, top, crop_width, crop_height);
        }
    }
    img
}

/// Crops a fixed border of pixels from all sides; too large a border for
/// the image leaves it unchanged.
pub fn crop_border(img: RgbaBuffer, border: u32) -> (r: RgbaBuffer)
    requires
        img.wf(),
    ensures
        r.wf(),
        ({
            if border == 0 || 2 * border >= img.width || 2 * border >= img.height {
                r == img
            } else {
                &&& r.width as int == img.width - 2 * border
                &&& r.height as int == img.height - 2 * border
                &&& r.data@ == spec_cropped(img.data@, img.width as int, border as int,
                    border as int, img.width - 2 * border, img.height - 2 * border)
            }
        }),
{
    let w = img.width();
    let h = img.height();
    if border == 0 || (border as u64) * 2 >= (w as u64) || (border as u64) * 2 >= (h as u64) {
        return img;
    }
    crop_region(&img, border, border, w - 2 * border, h - 2 * border)
}

} // verus!
