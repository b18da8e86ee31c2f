//! Value types describing what and how to render.

use vstd::prelude::*;

use crate::text::ascii_lowercase;

verus! {

/// Whether a lowered string equals one of up to three accepted spellings.
pub(crate) fn matches_any(lowered: &String, a: &str, b: &str, c: &str) -> (r: bool)
    ensures
        r == (lowered@ == a@ || lowered@ == b@ || lowered@ == c@),
{
    let sa = String::from_str(a);
    let sb = String::from_str(b);
    let sc = String::from_str(c);
    *lowered == sa || *lowered == sb || *lowered == sc
}

/// The error text for an unrecognized spelling of a named option.
fn unknown_value_error(what: &str, value: &str, choices: &str) -> (r: String)
    ensures
        r@ == "unsupported "@ + what@ + " '"@ + value@ + "'. valid choices: "@ + choices@,
{
    let mut msg = String::from_str("unsupported ");
    msg.append(what);
    msg.append(" '");
    msg.append(value);
    msg.append("'. valid choices: ");
    msg.append(choices);
    proof {
        assert(msg@ =~= "unsupported "@ + what@ + " '"@ + value@ + "'. valid choices: "@
            + choices@);
    }
    msg
}

/// Which rendering backend to use.
#[derive(Debug, Clone, Copy, PartialEq, Eq, Structural)]
pub enum BackendKind {
    Auto,
    Unicode,
    Kitty,
    Iterm2,
    Sixel,
}

impl BackendKind {
    /// The accepted spellings of the backend names.
    pub fn variants() -> (r: [&'static str; 5])
        ensures
            r[0]@ == "auto"@,
            r[1]@ == "unicode"@,
            r[2]@ == "kitty"@,
            r[3]@ == "iterm2"@,
            r[4]@ == "sixel"@,
    {
        ["auto", "unicode", "kitty", "iterm2", "sixel"]
    }
}

impl core::str::FromStr for BackendKind {
    type Err = String;

    /// Parses a backend name, case-insensitively.
    fn from_str(value: &str) -> Result<BackendKind, String> {
        let lowered = ascii_lowercase(value);
        if matches_any(&lowered, "auto", "auto", "auto") {
            Ok(BackendKind::Auto)
        } else if matches_any(&lowered, "unicode", "block", "blocks") {
            Ok(BackendKind::Unicode)
        } else if matches_any(&lowered, "kitty", "kitty", "kitty") {
            Ok(BackendKind::Kitty)
        } else if matches_any(&lowered, "iterm2", "iterm", "iterm") {
            Ok(BackendKind::Iterm2)
        } else if matches_any(&lowered, "sixel", "sixel", "sixel") {
            Ok(BackendKind::Sixel)
        } else {
            Err(unknown_value_error("backend", value, "auto, unicode, kitty, iterm2, sixel"))
        }
    }
}

/// How many pixels a Unicode cell covers: 2x1 (half) or 2x2 (quarter).
#[derive(Debug, Clone, Copy, PartialEq, Eq, Structural)]
pub enum PixelationMode {
    Half,
    Quarter,
}

impl Default for PixelationMode {
    fn default() -> (r: Self)
        ensures
            r == PixelationMode::Quarter,
    {
        PixelationMode::Quarter
    }
}

impl core::str::FromStr for PixelationMode {
    type Err = String;

    /// Parses a pixelation mode name or its one-letter shorthand,
    /// case-insensitively.
    fn from_str(value: &str) -> Result<PixelationMode, String> {
        let lowered = ascii_lowercase(value);
        if matches_any(&lowered, "half", "h", "h") {
            Ok(PixelationMode::Half)
        } else if matches_any(&lowered, "quarter", "q", "q") {
            Ok(PixelationMode::Quarter)
        } else {
            Err(unknown_value_error("pixelation mode", value, "half (h), quarter (q)"))
        }
    }
}

/// Whether EXIF orientation is applied by the decoding collaborator.
#[derive(Debug, Clone, Copy, PartialEq, Eq, Structural)]
pub enum RotationMode {
    Off,
    Exif,
}

impl Default for RotationMode {
    fn default() -> (r: Self)
        ensures
            r == RotationMode::Exif,
    {
        RotationMode::Exif
    }
}

impl core::str::FromStr for RotationMode {
    type Err = String;

    /// Parses a rotation mode name, case-insensitively.
    fn from_str(value: &str) -> Result<RotationMode, String> {
        let lowered = ascii_lowercase(value);
        if matches_any(&lowered, "off", "off", "off") {
            Ok(RotationMode::Off)
        } else if matches_any(&lowered, "exif", "exif", "exif") {
            Ok(RotationMode::Exif)
        } else {
            Err(unknown_value_error("rotation mode", value, "exif, off"))
        }
    }
}

/// A 24-bit color.
#[derive(Debug, Clone, Copy, PartialEq, Eq, Structural)]
pub struct RgbColor {
    pub r: u8,
    pub g: u8,
    pub b: u8,
}

/// An output geometry given on the command line, in character cells.
#[derive(Debug, Clone, Copy, PartialEq, Eq, Structural)]
pub enum GeometrySpec {
    Full(u32, u32),
    WidthOnly(u32),
    HeightOnly(u32),
}

/// A width stretch factor, kept as an exact rational `num / den`.
///
/// It compensates for terminal cells being taller than wide; a factor of
/// one leaves the width unchanged.
#[derive(Debug, Clone, Copy, PartialEq, Eq, Structural)]
pub struct WidthStretch {
    pub num: u32,
    pub den: u32,
}

impl WidthStretch {
    /// A valid stretch factor has a nonzero denominator.
    pub open spec fn wf(&self) -> bool {
        self.den >= 1
    }

    /// The neutral factor, one.
    pub fn one() -> (r: Self)
        ensures
            r == (WidthStretch { num: 1u32, den: 1u32 }),
            r.wf(),
    {
        WidthStretch { num: 1, den: 1 }
    }
}

impl Default for WidthStretch {
    fn default() -> (r: Self)
        ensures
            r == (WidthStretch { num: 1u32, den: 1u32 }),
    {
        WidthStretch { num: 1, den: 1 }
    }
}

/// The sizing policy that maps a source image onto the terminal grid.
#[derive(Debug, Clone, Copy, PartialEq)]
pub struct RenderSizing {
    /// Explicit width limit in cells, if any.
    pub width_cells: Option<u32>,
    /// Explicit height limit in cells, if any.
    pub height_cells: Option<u32>,
    /// Scale to fit the width, letting the height overflow.
    pub fit_width: bool,
    /// Scale to fit the height, letting the width overflow.
    pub fit_height: bool,
    /// Allow scaling images up beyond their source size.
    pub upscale: bool,
    /// When upscaling, restrict the factor to whole numbers.
    pub upscale_integer: bool,
    /// Horizontal stretch compensating for non-square cells.
    pub width_stretch: WidthStretch,
    /// Use a smoothing filter when resampling.
    pub antialias: bool,
}

impl RenderSizing {
    /// A valid policy carries a valid stretch factor.
    pub open spec fn wf(&self) -> bool {
        self.width_stretch.wf()
    }

    /// The policy that imposes no limits and no scaling adjustments.
    pub fn unconstrained() -> (r: Self)
        ensures
            r.width_cells is None,
            r.height_cells is None,
            !r.fit_width,
            !r.fit_height,
            !r.upscale,
            !r.upscale_integer,
            r.width_stretch == (WidthStretch { num: 1u32, den: 1u32 }),
            r.antialias,
            r.wf(),
    {
        RenderSizing {
            width_cells: None,
            height_cells: None,
            fit_width: false,
            fit_height: false,
            upscale: false,
            upscale_integer: false,
            width_stretch: WidthStretch::one(),
            antialias: true,
        }
    }
}

impl Default for RenderSizing {
    fn default() -> (r: Self)
        ensures
            r.width_cells is None,
            r.height_cells is None,
            !r.fit_width,
            !r.fit_height,
            !r.upscale,
            !r.upscale_integer,
            r.width_stretch == (WidthStretch { num: 1u32, den: 1u32 }),
            r.antialias,
            r.wf(),
    {
        RenderSizing::unconstrained()
    }
}

/// Layout options for showing several images in a grid.
#[derive(Debug, Clone, Copy, PartialEq, Eq)]
pub struct GridOptions {
    /// Number of columns; must be at least one.
    pub columns: usize,
    /// Horizontal gap between columns, in cells.
    pub spacing: u16,
    /// Optional limit on the number of rows.
    pub rows: Option<usize>,
}

impl GridOptions {
    /// A valid grid has at least one column.
    pub open spec fn wf(&self) -> bool {
        self.columns >= 1
    }

    /// How many rows the grid needs, capped by the row limit.
    pub open spec fn spec_rows_for_total(&self, total: int) -> int {
        let needed = (total + self.columns - 1) / self.columns as int;
        match self.rows {
            Some(limit) => if needed <= limit { needed } else { limit as int },
            None => needed,
        }
    }

    /// How many rows `total` images occupy at this grid's column count.
    pub fn rows_for_total(&self, total: usize) -> (r: usize)
        requires
            self.wf(),
            total + self.columns <= usize::MAX,
        ensures
            r == self.spec_rows_for_total(total as int),
    {
        let rows_needed = (total + self.columns - 1) / self.columns;
        if let Some(limit) = self.rows {
            if rows_needed <= limit {
                rows_needed
            } else {
                limit
            }
        } else {
            rows_needed
        }
    }
}

/// How transparent pixels are backed: auto-derived, none, or a fixed color.
#[derive(Debug, Clone, Copy, PartialEq, Eq, Structural)]
pub enum BackgroundColor {
    Auto,
    Unset,
    Color(RgbColor),
}

} // verus!
