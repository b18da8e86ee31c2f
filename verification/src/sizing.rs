//! The sizing engine: maps a source pixel size, a sizing policy and a
//! terminal cell budget to target pixel dimensions and cell allocations.
//!
//! Scale factors are exact rationals `num / den`; products are rounded to
//! the nearest pixel (halves up). A height that exceeds what fits in the
//! pixel-dimension type saturates just below its maximum, keeping the
//! even-height adjustment safe.

use vstd::prelude::*;

use vstd::math::{max, min};

use crate::config::{PixelationMode, RenderSizing};

verus! {

/// The largest even value a pixel dimension can take; absurdly large
/// heights saturate here.
pub const DIM_SATURATE: u32 = 0xffff_fffe;

/// `v * num / den`, rounded to the nearest integer with halves up.
pub open spec fn spec_round_rat(v: int, num: int, den: int) -> int {
    (2 * v * num + den) / (2 * den)
}

/// The scale factor selected from the width and height factors by the fit
/// flags: fit-width takes the width factor alone, fit-height the height
/// factor alone, otherwise the smaller of the two.
pub open spec fn spec_selected_scale(
    swn: int,
    swd: int,
    shn: int,
    shd: int,
    fit_width: bool,
    fit_height: bool,
) -> (int, int) {
    if fit_width {
        (swn, swd)
    } else if fit_height {
        (shn, shd)
    } else if swn * shd <= shn * swd {
        (swn, swd)
    } else {
        (shn, shd)
    }
}

/// The effective scale factor: the selected factor, clamped to one when
/// upscaling is off, and floored to a whole number when integer upscaling
/// is requested and the factor exceeds one.
pub open spec fn spec_effective_scale(
    swn: int,
    swd: int,
    shn: int,
    shd: int,
    fit_width: bool,
    fit_height: bool,
    upscale: bool,
    upscale_integer: bool,
) -> (int, int) {
    let sel = spec_selected_scale(swn, swd, shn, shd, fit_width, fit_height);
    if !upscale && sel.0 > sel.1 {
        (1int, 1int)
    } else if upscale_integer && sel.0 > sel.1 {
        (sel.0 / sel.1, 1int)
    } else {
        sel
    }
}

/// With upscaling off the effective scale never exceeds one, and with
/// integer upscaling on, a would-be scale above one is applied as a whole
/// number at least one.
pub proof fn lemma_scale_policy(
    swn: int,
    swd: int,
    shn: int,
    shd: int,
    fit_width: bool,
    fit_height: bool,
    upscale: bool,
    upscale_integer: bool,
)
    requires
        swn >= 0,
        shn >= 0,
        swd >= 1,
        shd >= 1,
    ensures
        !upscale ==> {
            let eff = spec_effective_scale(
                swn, swd, shn, shd, fit_width, fit_height, upscale, upscale_integer);
            eff.0 <= eff.1
        },
        upscale && upscale_integer && {
            let sel = spec_selected_scale(swn, swd, shn, shd, fit_width, fit_height);
            sel.0 > sel.1
        } ==> {
            let eff = spec_effective_scale(
                swn, swd, shn, shd, fit_width, fit_height, upscale, upscale_integer);
            eff.1 == 1 && eff.0 >= 1
        },
{
    let sel = spec_selected_scale(swn, swd, shn, shd, fit_width, fit_height);
    assert(sel.1 >= 1);
    if sel.0 > sel.1 {
        assert(sel.0 / sel.1 >= 1) by (nonlinear_arith)
            requires sel.0 > sel.1 >= 1;
    }
}

/// Rounds `v * num / den` to the nearest integer, halves up.
fn round_rat(v: u128, num: u128, den: u128) -> (r: u128)
    requires
        1 <= den,
        v <= 0x40_0000_0000_0000_0000,
        num <= 0x1_0000_0000,
        den <= 0x1_0000_0000,
    ensures
        r == spec_round_rat(v as int, num as int, den as int),
{
    proof {
        assert(2 * (v as int) * (num as int) <= 2 * 0x40_0000_0000_0000_0000 * 0x1_0000_0000)
            by (nonlinear_arith)
            requires v <= 0x40_0000_0000_0000_0000u128 && num <= 0x1_0000_0000u128;
        assert(2 * (v as int) * (num as int) >= 0) by (nonlinear_arith)
            requires v >= 0u128 && num >= 0u128;
    }
    (2 * v * num + den) / (2 * den)
}

/// The selected scale, computed on exact rationals.
fn effective_scale(
    swn: u64,
    swd: u64,
    shn: u64,
    shd: u64,
    fit_width: bool,
    fit_height: bool,
    upscale: bool,
    upscale_integer: bool,
) -> (r: (u64, u64))
    requires
        1 <= swd <= 0xffff_ffff,
        1 <= shd <= 0xffff_ffff,
        swn <= 0x1_0000_0000,
        shn <= 0xffff_ffff,
    ensures
        (r.0 as int, r.1 as int) == spec_effective_scale(
            swn as int, swd as int, shn as int, shd as int,
            fit_width, fit_height, upscale, upscale_integer),
        r.1 >= 1,
        r.0 <= 0x1_0000_0000,
        r.1 <= 0xffff_ffff,
{
    proof {
        assert((swn as int) * (shd as int) <= 0x1_0000_0000 * 0xffff_ffff
            && (shn as int) * (swd as int) <= 0x1_0000_0000 * 0xffff_ffff
            && (swn as int) * (shd as int) >= 0
            && (shn as int) * (swd as int) >= 0) by (nonlinear_arith)
            requires
                swn <= 0x1_0000_0000u64 && shd <= 0xffff_ffffu64 && shn <= 0xffff_ffffu64
                    && swd <= 0xffff_ffffu64,
    }
    let sel: (u64, u64) = if fit_width {
        (swn, swd)
    } else if fit_height {
        (shn, shd)
    } else if (swn as u128) * (shd as u128) <= (shn as u128) * (swd as u128) {
        (swn, swd)
    } else {
        (shn, shd)
    };
    if !upscale && sel.0 > sel.1 {
        (1, 1)
    } else if upscale_integer && sel.0 > sel.1 {
        (sel.0 / sel.1, 1)
    } else {
        sel
    }
}

/// The width budget in cells for the Unicode compositor: the explicit
/// limit if given, else the frame width capped by the terminal; always
/// between one and the terminal width.
pub open spec fn spec_unicode_max_width_cells(
    width_cells: Option<u32>,
    frame_w: int,
    cols: int,
) -> int {
    let base = match width_cells {
        Some(w) => w as int,
        None => min(frame_w, cols),
    };
    min(max(base, 1), cols)
}

/// The height budget in pixel rows: twice the explicit cell limit
/// (saturating) if given, else the frame height capped by twice the
/// terminal height.
pub open spec fn spec_unicode_max_height_px(
    height_cells: Option<u32>,
    frame_h: int,
    rows: int,
) -> int {
    match height_cells {
        Some(c) => min(2 * c, 0xffff_ffff),
        None => min(frame_h, max(2 * rows, 1)),
    }
}

/// The target pixel size of the Unicode compositor's resampled frame:
/// scale per policy, round, stretch the width, clamp to the budget, force
/// nonzero dimensions and the evenness the block mode needs.
pub open spec fn spec_unicode_target(
    frame_w: int,
    frame_h: int,
    sizing: RenderSizing,
    cols: int,
    rows: int,
    mode: PixelationMode,
) -> (int, int) {
    let maxw_cells = spec_unicode_max_width_cells(sizing.width_cells, frame_w, cols);
    let maxw_px = if mode is Quarter { 2 * maxw_cells } else { maxw_cells };
    let maxh_px = spec_unicode_max_height_px(sizing.height_cells, frame_h, rows);
    let eff = spec_effective_scale(
        maxw_px, frame_w, maxh_px, frame_h,
        sizing.fit_width, sizing.fit_height, sizing.upscale, sizing.upscale_integer);
    let base_w = spec_round_rat(frame_w, eff.0, eff.1);
    let base_h = spec_round_rat(frame_h, eff.0, eff.1);
    let stretched = spec_round_rat(base_w, sizing.width_stretch.num as int,
        sizing.width_stretch.den as int);
    let tw = min(stretched, maxw_px);
    let th = min(base_h, DIM_SATURATE as int);
    let min_dim: int = if mode is Quarter { 2 } else { 1 };
    let tw = if tw == 0 { min_dim } else { tw };
    let th = if th == 0 { min_dim } else { th };
    let tw = if mode is Quarter && tw % 2 != 0 { tw + 1 } else { tw };
    let th = if th % 2 != 0 { th + 1 } else { th };
    (tw, th)
}

/// Computes the width budget in cells for the Unicode compositor.
fn unicode_max_width_cells(width_cells: Option<u32>, frame_w: u32, cols: u16) -> (r: u32)
    ensures
        r as int == spec_unicode_max_width_cells(width_cells, frame_w as int, cols as int),
        r <= 0xffff,
{
    let base: u32 = match width_cells {
        Some(w) => w,
        None => if frame_w < cols as u32 { frame_w } else { cols as u32 },
    };
    let base = if base < 1 { 1 } else { base };
    if base > cols as u32 { cols as u32 } else { base }
}

/// Computes the height budget in pixel rows for the Unicode compositor.
fn unicode_max_height_px(height_cells: Option<u32>, frame_h: u32, rows: u16) -> (r: u64)
    ensures
        r as int == spec_unicode_max_height_px(height_cells, frame_h as int, rows as int),
        r <= 0xffff_ffff,
{
    match height_cells {
        Some(c) => {
            let doubled = 2 * (c as u64);
            if doubled > 0xffff_ffff { 0xffff_ffff } else { doubled }
        },
        None => {
            let cap = if 2 * (rows as u64) > 1 { 2 * (rows as u64) } else { 1 };
            if (frame_h as u64) < cap { frame_h as u64 } else { cap }
        },
    }
}

/// Computes the Unicode compositor's target pixel size for a frame.
#[verifier::rlimit(60)]
pub fn unicode_target(
    frame_w: u32,
    frame_h: u32,
    sizing: &RenderSizing,
    cols: u16,
    rows: u16,
    mode: PixelationMode,
) -> (r: (u32, u32))
    requires
        frame_w >= 1,
        frame_h >= 1,
        sizing.wf(),
    ensures
        (r.0 as int, r.1 as int) == spec_unicode_target(
            frame_w as int, frame_h as int, *sizing, cols as int, rows as int, mode),
        1 <= r.0,
        1 <= r.1,
        r.1 % 2 == 0 || mode is Half,
        mode is Quarter ==> r.0 % 2 == 0 && r.1 % 2 == 0,
{
    let maxw_cells: u32 = unicode_max_width_cells(sizing.width_cells, frame_w, cols);
    let maxw_px: u64 = match mode {
        PixelationMode::Quarter => 2 * (maxw_cells as u64),
        PixelationMode::Half => maxw_cells as u64,
    };
    let maxh_px: u64 = unicode_max_height_px(sizing.height_cells, frame_h, rows);
    let eff = effective_scale(
        maxw_px, frame_w as u64, maxh_px, frame_h as u64,
        sizing.fit_width, sizing.fit_height, sizing.upscale, sizing.upscale_integer);
    let base_w = round_rat(frame_w as u128, eff.0 as u128, eff.1 as u128);
    let base_h = round_rat(frame_h as u128, eff.0 as u128, eff.1 as u128);
    proof {
        lemma_round_rat_bound(frame_w as int, eff.0 as int, eff.1 as int);
        lemma_round_rat_bound(frame_h as int, eff.0 as int, eff.1 as int);
    }
    let stretched = round_rat(base_w, sizing.width_stretch.num as u128,
        sizing.width_stretch.den as u128);
    let tw: u32 = if stretched > (maxw_px as u128) { maxw_px as u32 } else { stretched as u32 };
    let th: u32 = if base_h > (DIM_SATURATE as u128) { DIM_SATURATE } else { base_h as u32 };
    let min_dim: u32 = match mode {
        PixelationMode::Quarter => 2,
        PixelationMode::Half => 1,
    };
    let tw = if tw == 0 { min_dim } else { tw };
    let th = if th == 0 { min_dim } else { th };
    let tw = match mode {
        PixelationMode::Quarter => if tw % 2 != 0 { tw + 1 } else { tw },
        PixelationMode::Half => tw,
    };
    let th = if th % 2 != 0 { th + 1 } else { th };
    (tw, th)
}

/// The kitty-style protocol's cell allocation: the explicit limits where
/// given, else the frame size capped by the terminal; clamped to the
/// terminal and at least one cell each way.
pub open spec fn spec_kitty_cells(
    width_cells: Option<u32>,
    height_cells: Option<u32>,
    frame_w: int,
    frame_h: int,
    cols: int,
    rows: int,
) -> (int, int) {
    (spec_graphics_budget(width_cells, frame_w, cols),
        spec_graphics_budget(height_cells, frame_h, rows))
}

/// Computes the kitty-style protocol's cell allocation.
pub fn kitty_cell_allocation(
    width_cells: Option<u32>,
    height_cells: Option<u32>,
    frame_w: u32,
    frame_h: u32,
    cols: u16,
    rows: u16,
) -> (r: (u32, u32))
    ensures
        (r.0 as int, r.1 as int) == spec_kitty_cells(
            width_cells, height_cells, frame_w as int, frame_h as int, cols as int,
            rows as int),
{
    (graphics_budget(width_cells, frame_w, cols), graphics_budget(height_cells, frame_h, rows))
}

/// The iTerm2-style protocol's cell allocation. With both limits explicit
/// they are used as given; otherwise the allocation preserves the image
/// aspect ratio at an assumed cell aspect of one half, preferring the
/// width derived from the height budget when it fits.
pub open spec fn spec_iterm2_cells(
    width_cells: Option<u32>,
    height_cells: Option<u32>,
    frame_w: int,
    frame_h: int,
    cols: int,
    rows: int,
) -> (int, int) {
    let maxw = min(match width_cells { Some(w) => w as int, None => min(frame_w, cols) }, cols);
    let maxh = min(match height_cells { Some(h) => h as int, None => min(frame_h, rows) },
        rows);
    if width_cells is Some && height_cells is Some {
        (maxw, maxh)
    } else {
        let w_if_h = 2 * maxh * frame_w / frame_h;
        let h_if_w = maxw * frame_h / (2 * frame_w);
        if w_if_h <= maxw {
            (max(w_if_h, 1), maxh)
        } else {
            (maxw, max(min(h_if_w, 0xffff_ffff), 1))
        }
    }
}

/// Computes the iTerm2-style protocol's cell allocation.
pub fn iterm2_cell_allocation(
    width_cells: Option<u32>,
    height_cells: Option<u32>,
    frame_w: u32,
    frame_h: u32,
    cols: u16,
    rows: u16,
) -> (r: (u32, u32))
    requires
        frame_w >= 1,
        frame_h >= 1,
    ensures
        (r.0 as int, r.1 as int) == spec_iterm2_cells(
            width_cells, height_cells, frame_w as int, frame_h as int, cols as int, rows as int),
{
    let defw: u32 = if frame_w < cols as u32 { frame_w } else { cols as u32 };
    let maxw: u32 = match width_cells {
        Some(w) => if w > cols as u32 { cols as u32 } else { w },
        None => defw,
    };
    let defh: u32 = if frame_h < rows as u32 { frame_h } else { rows as u32 };
    let maxh: u32 = match height_cells {
        Some(h) => if h > rows as u32 { rows as u32 } else { h },
        None => defh,
    };
    if width_cells.is_some() && height_cells.is_some() {
        (maxw, maxh)
    } else {
        proof {
            assert(2 * (maxh as int) * (frame_w as int) <= 2 * 0xffff_ffff * 0xffff_ffff
                && 2 * (maxh as int) * (frame_w as int) >= 0
                && (maxw as int) * (frame_h as int) <= 0xffff_ffff * 0xffff_ffff
                && (maxw as int) * (frame_h as int) >= 0) by (nonlinear_arith)
                requires
                    maxh <= 0xffff_ffffu32 && frame_w <= 0xffff_ffffu32
                        && maxw <= 0xffff_ffffu32 && frame_h <= 0xffff_ffffu32,
        }
        let w_if_h: u128 = 2 * (maxh as u128) * (frame_w as u128) / (frame_h as u128);
        let h_if_w: u128 = (maxw as u128) * (frame_h as u128) / (2 * (frame_w as u128));
        if w_if_h <= maxw as u128 {
            let w = if w_if_h < 1 { 1 } else { w_if_h as u32 };
            (w, maxh)
        } else {
            let h_sat: u32 = if h_if_w > 0xffff_ffff { 0xffff_ffff } else { h_if_w as u32 };
            let h = if h_sat < 1 { 1 } else { h_sat };
            (maxw, h)
        }
    }
}

/// A graphics-path resample target: the pixel size the frame is scaled to
/// and the cell rectangle it claims.
pub struct GraphicsTarget {
    pub width_px: u32,
    pub height_px: u32,
    pub width_cells: u32,
    pub height_cells: u32,
}

/// One axis of the graphics-path budget: the explicit limit if given,
/// else the frame size capped by the terminal; between one and the
/// terminal size.
pub open spec fn spec_graphics_budget(limit: Option<u32>, frame_dim: int, term_dim: int) -> int {
    let base = match limit {
        Some(v) => v as int,
        None => min(frame_dim, term_dim),
    };
    min(max(base, 1), term_dim)
}

/// The graphics-path resample target: scale per policy into the cell
/// budget, round, force nonzero dimensions, and clamp the claimed cells
/// to the budget.
pub open spec fn spec_graphics_target(
    frame_w: int,
    frame_h: int,
    sizing: RenderSizing,
    cols: int,
    rows: int,
) -> (int, int, int, int) {
    let maxw = spec_graphics_budget(sizing.width_cells, frame_w, cols);
    let maxh = spec_graphics_budget(sizing.height_cells, frame_h, rows);
    let eff = spec_effective_scale(
        maxw, frame_w, maxh, frame_h,
        sizing.fit_width, sizing.fit_height, sizing.upscale, sizing.upscale_integer);
    let tw = min(spec_round_rat(frame_w, eff.0, eff.1), 0xffff_ffff);
    let th = min(spec_round_rat(frame_h, eff.0, eff.1), 0xffff_ffff);
    let tw = if tw == 0 { 1int } else { tw };
    let th = if th == 0 { 1int } else { th };
    (tw, th, min(max(tw, 1), maxw), min(max(th, 1), maxh))
}

/// The scale factor the graphics path selects before any clamping.
pub open spec fn spec_graphics_selected_scale(
    frame_w: int,
    frame_h: int,
    sizing: RenderSizing,
    cols: int,
    rows: int,
) -> (int, int) {
    spec_selected_scale(
        spec_graphics_budget(sizing.width_cells, frame_w, cols),
        frame_w,
        spec_graphics_budget(sizing.height_cells, frame_h, rows),
        frame_h,
        sizing.fit_width,
        sizing.fit_height,
    )
}

/// With upscaling allowed and restricted to whole numbers, a would-be
/// scale above one is applied as the whole factor `k = floor(scale)`, at
/// least one: the graphics-path target is exactly `k` times the source
/// size. Stated for products that fit the pixel type; beyond it the
/// target saturates.
pub proof fn lemma_integer_upscale_target(
    frame_w: int,
    frame_h: int,
    sizing: RenderSizing,
    cols: int,
    rows: int,
)
    requires
        frame_w >= 1,
        frame_h >= 1,
        sizing.upscale,
        sizing.upscale_integer,
        ({
            let sel = spec_graphics_selected_scale(frame_w, frame_h, sizing, cols, rows);
            sel.0 > sel.1
        }),
        ({
            let sel = spec_graphics_selected_scale(frame_w, frame_h, sizing, cols, rows);
            let k = sel.0 / sel.1;
            frame_w * k <= 0xffff_ffff && frame_h * k <= 0xffff_ffff
        }),
    ensures
        ({
            let sel = spec_graphics_selected_scale(frame_w, frame_h, sizing, cols, rows);
            let k = sel.0 / sel.1;
            let t = spec_graphics_target(frame_w, frame_h, sizing, cols, rows);
            &&& k >= 1
            &&& t.0 == frame_w * k
            &&& t.1 == frame_h * k
        }),
{
    let sel = spec_graphics_selected_scale(frame_w, frame_h, sizing, cols, rows);
    let k = sel.0 / sel.1;
    assert(sel.1 == frame_w || sel.1 == frame_h);
    assert(k >= 1) by (nonlinear_arith)
        requires k == sel.0 / sel.1 && sel.0 > sel.1 >= 1;
    assert(spec_round_rat(frame_w, k, 1) == frame_w * k) by (nonlinear_arith)
        requires frame_w * k >= 0;
    assert(spec_round_rat(frame_h, k, 1) == frame_h * k) by (nonlinear_arith)
        requires frame_h * k >= 0;
    assert(frame_w * k >= 1 && frame_h * k >= 1) by (nonlinear_arith)
        requires frame_w >= 1 && frame_h >= 1 && k >= 1;
}

/// Computes one axis of the graphics-path budget.
fn graphics_budget(limit: Option<u32>, frame_dim: u32, term_dim: u16) -> (r: u32)
    ensures
        r as int == spec_graphics_budget(limit, frame_dim as int, term_dim as int),
        r <= 0xffff,
{
    let base: u32 = match limit {
        Some(v) => v,
        None => if frame_dim < term_dim as u32 { frame_dim } else { term_dim as u32 },
    };
    let base = if base < 1 { 1 } else { base };
    if base > term_dim as u32 { term_dim as u32 } else { base }
}

/// Computes the graphics-path resample target for a frame.
#[verifier::rlimit(60)]
pub fn graphics_target(
    frame_w: u32,
    frame_h: u32,
    sizing: &RenderSizing,
    cols: u16,
    rows: u16,
) -> (r: GraphicsTarget)
    requires
        frame_w >= 1,
        frame_h >= 1,
    ensures
        (r.width_px as int, r.height_px as int, r.width_cells as int, r.height_cells as int)
            == spec_graphics_target(frame_w as int, frame_h as int, *sizing, cols as int,
                rows as int),
        r.width_px >= 1,
        r.height_px >= 1,
{
    let maxw = graphics_budget(sizing.width_cells, frame_w, cols);
    let maxh = graphics_budget(sizing.height_cells, frame_h, rows);
    let eff = effective_scale(
        maxw as u64, frame_w as u64, maxh as u64, frame_h as u64,
        sizing.fit_width, sizing.fit_height, sizing.upscale, sizing.upscale_integer);
    let tw128 = round_rat(frame_w as u128, eff.0 as u128, eff.1 as u128);
    let th128 = round_rat(frame_h as u128, eff.0 as u128, eff.1 as u128);
    proof {
        lemma_round_rat_bound(frame_w as int, eff.0 as int, eff.1 as int);
        lemma_round_rat_bound(frame_h as int, eff.0 as int, eff.1 as int);
    }
    let tw: u32 = if tw128 > 0xffff_ffff { 0xffff_ffff } else { tw128 as u32 };
    let th: u32 = if th128 > 0xffff_ffff { 0xffff_ffff } else { th128 as u32 };
    let tw = if tw == 0 { 1 } else { tw };
    let th = if th == 0 { 1 } else { th };
    let wc = if tw > maxw { maxw } else { tw };
    let hc = if th > maxh { maxh } else { th };
    GraphicsTarget { width_px: tw, height_px: th, width_cells: wc, height_cells: hc }
}

/// The rounded product of a value and a scale stays below the overflow
/// ceiling used by the pixel arithmetic.
proof fn lemma_round_rat_bound(v: int, num: int, den: int)
    requires
        0 <= v <= 0xffff_ffff,
        0 <= num <= 0x1_0000_0000,
        1 <= den,
    ensures
        spec_round_rat(v, num, den) <= 0x40_0000_0000_0000_0000,
        spec_round_rat(v, num, den) >= 0,
{
    let prod = v * num;
    assert(2 * v * num + den <= 2 * den * (prod + 1)) by (nonlinear_arith)
        requires den >= 1 && v >= 0 && num >= 0 && prod == v * num;
    assert((2 * v * num + den) / (2 * den) <= prod + 1) by (nonlinear_arith)
        requires den >= 1 && 0 <= 2 * v * num + den <= 2 * den * (prod + 1) && prod >= 0;
    assert(prod <= 0xffff_ffff * 0x1_0000_0000) by (nonlinear_arith)
        requires prod == v * num && 0 <= v <= 0xffff_ffff && 0 <= num <= 0x1_0000_0000;
    assert(2 * v * num + den >= 0) by (nonlinear_arith)
        requires v >= 0 && num >= 0 && den >= 1;
    assert((2 * v * num + den) / (2 * den) >= 0) by (nonlinear_arith)
        requires den >= 1 && 2 * v * num + den >= 0;
}

} // verus!
