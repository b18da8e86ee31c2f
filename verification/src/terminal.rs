//! The terminal geometry the renderer is given.

use vstd::prelude::*;

verus! {

/// Size of the terminal: character cells, and the pixel size of the whole
/// grid where the terminal reports it.
#[derive(Debug, Clone, Copy, PartialEq, Eq)]
pub struct TerminalSize {
    pub columns: u16,
    pub rows: u16,
    pub width_pixels: Option<u16>,
    pub height_pixels: Option<u16>,
}

impl TerminalSize {
    /// A terminal size with only the cell grid known.
    pub fn cells(columns: u16, rows: u16) -> (r: Self)
        ensures
            r.columns == columns,
            r.rows == rows,
            r.width_pixels is None,
            r.height_pixels is None,
    {
        TerminalSize { columns, rows, width_pixels: None, height_pixels: None }
    }
}

} // verus!
