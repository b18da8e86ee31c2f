//! 256-color palette quantization for terminals that cannot show 24-bit
//! color. Index layout: 0-15 system colors (never produced here), 16-231 a
//! 6x6x6 RGB cube, 232-255 a 24-step grayscale ramp.

use vstd::prelude::*;

use crate::config::RgbColor;

verus! {

/// Absolute difference of two channel values.
pub open spec fn abs_diff(a: u8, b: u8) -> int {
    if a >= b { a - b } else { b - a }
}

/// Which of the six cube levels a channel falls in. The thresholds are not
/// evenly spaced: they minimize the error against the cube's level values
/// 0, 95, 135, 175, 215, 255.
pub open spec fn spec_channel_level(v: u8) -> u8 {
    if v < 48 { 0u8 }
    else if v < 115 { 1u8 }
    else if v < 155 { 2u8 }
    else if v < 195 { 3u8 }
    else if v < 235 { 4u8 }
    else { 5u8 }
}

/// The palette index for a color whose channels lie within 8 of each other:
/// one of the 24 grayscale ramp entries, or the cube's black/white corners
/// at the extremes.
pub open spec fn spec_gray_index(r: u8, g: u8, b: u8) -> u8 {
    let gray = (r + g + b) / 3;
    if gray < 4 { 16u8 }
    else if gray > 247 { 231u8 }
    else {
        let index = if (gray - 4) * 24 / 244 <= 23 { (gray - 4) * 24 / 244 } else { 23int };
        (232 + index) as u8
    }
}

/// The 256-color palette index chosen for a 24-bit color.
pub open spec fn spec_rgb_to_256(r: u8, g: u8, b: u8) -> u8 {
    let max_diff = vstd::math::max(vstd::math::max(abs_diff(r, g), abs_diff(r, b)), abs_diff(g, b));
    if max_diff < 8 {
        spec_gray_index(r, g, b)
    } else {
        (16 + 36 * spec_channel_level(r) + 6 * spec_channel_level(g) + spec_channel_level(b)) as u8
    }
}

/// Absolute difference of two channel values.
fn channel_diff(a: u8, b: u8) -> (r: u8)
    ensures
        r == abs_diff(a, b),
{
    if a >= b { a - b } else { b - a }
}

/// Maps a channel value to one of the cube's six levels.
pub fn quantize_channel_to_6(value: u8) -> (r: u8)
    ensures
        r == spec_channel_level(value),
        r <= 5,
{
    if value < 48 { 0 }
    else if value < 115 { 1 }
    else if value < 155 { 2 }
    else if value < 195 { 3 }
    else if value < 235 { 4 }
    else { 5 }
}

/// Maps a 24-bit color to the nearest entry of the terminal 256-color
/// palette: near-gray colors go to the grayscale ramp, others to the
/// 6x6x6 cube as `16 + 36*R + 6*G + B`.
pub fn rgb_to_256(r: u8, g: u8, b: u8) -> (idx: u8)
    ensures
        idx == spec_rgb_to_256(r, g, b),
        idx >= 16,
{
    let d_rg = channel_diff(r, g);
    let d_rb = channel_diff(r, b);
    let d_gb = channel_diff(g, b);
    let max_diff = if d_rg >= d_rb { d_rg } else { d_rb };
    let max_diff = if max_diff >= d_gb { max_diff } else { d_gb };
    if max_diff < 8 {
        let gray = ((r as u16) + (g as u16) + (b as u16)) / 3;
        if gray < 4 {
            16
        } else if gray > 247 {
            231
        } else {
            let index = (gray - 4) * 24 / 244;
            let index = if index <= 23 { index } else { 23 };
            232 + (index as u8)
        }
    } else {
        let r_idx = quantize_channel_to_6(r);
        let g_idx = quantize_channel_to_6(g);
        let b_idx = quantize_channel_to_6(b);
        16 + 36 * r_idx + 6 * g_idx + b_idx
    }
}

/// The representative channel value of a cube level.
pub open spec fn spec_level_value(level: u8) -> u8 {
    if level == 0 { 0u8 }
    else if level == 1 { 95u8 }
    else if level == 2 { 135u8 }
    else if level == 3 { 175u8 }
    else if level == 4 { 215u8 }
    else if level == 5 { 255u8 }
    else { 0u8 }
}

/// The approximate color that a palette index stands for.
pub open spec fn spec_color_256_to_rgb(index: u8) -> RgbColor {
    if index >= 232 {
        let level = ((index - 232) * 10 + 4) as u8;
        RgbColor { r: level, g: level, b: level }
    } else if index >= 16 {
        let idx = (index - 16) as u8;
        RgbColor {
            r: spec_level_value(idx / 36),
            g: spec_level_value((idx % 36) / 6),
            b: spec_level_value(idx % 6),
        }
    } else {
        RgbColor { r: 128, g: 128, b: 128 }
    }
}

/// The representative channel value of a cube level.
pub fn channel_6_to_rgb(level: u8) -> (r: u8)
    ensures
        r == spec_level_value(level),
{
    match level {
        0 => 0,
        1 => 95,
        2 => 135,
        3 => 175,
        4 => 215,
        5 => 255,
        _ => 0,
    }
}

/// Converts a 256-color index back to an approximate 24-bit color.
pub fn color_256_to_rgb(index: u8) -> (c: RgbColor)
    ensures
        c == spec_color_256_to_rgb(index),
{
    if index >= 232 {
        let level = (index - 232) * 10 + 4;
        RgbColor { r: level, g: level, b: level }
    } else if index >= 16 {
        let idx = index - 16;
        let r = idx / 36;
        let g = (idx % 36) / 6;
        let b = idx % 6;
        RgbColor {
            r: channel_6_to_rgb(r),
            g: channel_6_to_rgb(g),
            b: channel_6_to_rgb(b),
        }
    } else {
        RgbColor { r: 128, g: 128, b: 128 }
    }
}

} // verus!
