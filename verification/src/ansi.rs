//! SGR color escape sequences, built character by character with exact
//! character-sequence specifications.

use vstd::prelude::*;

use crate::color_quantize::{rgb_to_256, spec_rgb_to_256};
use crate::config::RgbColor;
use crate::text::{dec_str, push_u64};

verus! {

/// The foreground color escape: 24-bit `ESC[38;2;R;G;Bm`, or 8-bit
/// `ESC[38;5;Nm` with the quantized palette index.
pub open spec fn spec_fg_escape(c: RgbColor, use_8bit: bool) -> Seq<char> {
    if use_8bit {
        "\u{1b}[38;5;"@ + dec_str(spec_rgb_to_256(c.r, c.g, c.b) as nat) + "m"@
    } else {
        "\u{1b}[38;2;"@ + dec_str(c.r as nat) + ";"@ + dec_str(c.g as nat) + ";"@
            + dec_str(c.b as nat) + "m"@
    }
}

/// The background color escape: 24-bit `ESC[48;2;R;G;Bm`, or 8-bit
/// `ESC[48;5;Nm` with the quantized palette index.
pub open spec fn spec_bg_escape(c: RgbColor, use_8bit: bool) -> Seq<char> {
    if use_8bit {
        "\u{1b}[48;5;"@ + dec_str(spec_rgb_to_256(c.r, c.g, c.b) as nat) + "m"@
    } else {
        "\u{1b}[48;2;"@ + dec_str(c.r as nat) + ";"@ + dec_str(c.g as nat) + ";"@
            + dec_str(c.b as nat) + "m"@
    }
}

/// The background reset escape `ESC[49m`.
pub open spec fn spec_reset_bg() -> Seq<char> {
    "\u{1b}[49m"@
}

/// The full reset escape `ESC[0m`.
pub open spec fn spec_reset_all() -> Seq<char> {
    "\u{1b}[0m"@
}

/// Appends the foreground color escape for a color.
pub fn push_fg(line: &mut String, rgb: RgbColor, use_8bit: bool)
    ensures
        final(line)@ == old(line)@ + spec_fg_escape(rgb, use_8bit),
{
    if use_8bit {
        let idx = rgb_to_256(rgb.r, rgb.g, rgb.b);
        line.append("\u{1b}[38;5;");
        push_u64(line, idx as u64);
        line.append("m");
    } else {
        line.append("\u{1b}[38;2;");
        push_u64(line, rgb.r as u64);
        line.append(";");
        push_u64(line, rgb.g as u64);
        line.append(";");
        push_u64(line, rgb.b as u64);
        line.append("m");
    }
    proof {
        assert((*line)@ =~= old(line)@ + spec_fg_escape(rgb, use_8bit));
    }
}

/// Appends the background color escape for a color.
pub fn push_bg(line: &mut String, rgb: RgbColor, use_8bit: bool)
    ensures
        final(line)@ == old(line)@ + spec_bg_escape(rgb, use_8bit),
{
    if use_8bit {
        let idx = rgb_to_256(rgb.r, rgb.g, rgb.b);
        line.append("\u{1b}[48;5;");
        push_u64(line, idx as u64);
        line.append("m");
    } else {
        line.append("\u{1b}[48;2;");
        push_u64(line, rgb.r as u64);
        line.append(";");
        push_u64(line, rgb.g as u64);
        line.append(";");
        push_u64(line, rgb.b as u64);
        line.append("m");
    }
    proof {
        assert((*line)@ =~= old(line)@ + spec_bg_escape(rgb, use_8bit));
    }
}

/// Appends the background reset escape.
pub fn push_reset_bg(line: &mut String)
    ensures
        final(line)@ == old(line)@ + spec_reset_bg(),
{
    line.append("\u{1b}[49m");
}

/// Appends the full reset escape.
pub fn push_reset_all(line: &mut String)
    ensures
        final(line)@ == old(line)@ + spec_reset_all(),
{
    line.append("\u{1b}[0m");
}

} // verus!
