//! The screen model: an immutable-once-built snapshot of the whole visible
//! grid, as a flat row-major sequence of glyph cells plus a row width.

use vstd::prelude::*;

verus! {

/// One grid cell: a glyph code plus 24-bit foreground and background colors.
/// A plain value, copied freely.
#[derive(Copy, Clone, Debug, PartialEq, Eq, Structural)]
pub struct Glyph {
    /// The glyph code of the cell's character.
    pub character: u32,
    /// The cell's background color.
    pub background: u32,
    /// The cell's foreground color.
    pub foreground: u32,
}

/// One complete snapshot of the character grid. `width == 0` denotes an
/// empty screen; otherwise the glyphs fill whole rows of `width` cells.
#[derive(Clone)]
pub struct Screen {
    /// The cells, in row-major order; the length is a multiple of `width`.
    pub glyphs: Vec<Glyph>,
    /// The number of cells in one row.
    pub width: u32,
}

impl Screen {
    /// The row/column invariant: a zero-width screen holds no glyphs, and a
    /// positive width divides the glyph count into whole rows.
    pub open spec fn wf(&self) -> bool {
        &&& self.width == 0 ==> self.glyphs@.len() == 0
        &&& self.width > 0 ==> self.glyphs@.len() as int % (self.width as int) == 0
    }

    /// The number of whole rows the snapshot fills.
    pub open spec fn spec_height(&self) -> int {
        if self.width == 0 {
            0
        } else {
            self.glyphs@.len() as int / (self.width as int)
        }
    }

    /// Builds a snapshot from its cells and row width. A zero width demands
    /// an empty cell sequence; a positive width demands whole rows.
    pub fn new(glyphs: Vec<Glyph>, width: u32) -> (s: Screen)
        requires
            width == 0 ==> glyphs@.len() == 0,
            width > 0 ==> glyphs@.len() as int % (width as int) == 0,
        ensures
            s.glyphs == glyphs,
            s.width == width,
            s.wf(),
    {
        Screen { glyphs, width }
    }

    /// The number of whole rows the snapshot fills.
    pub fn height(&self) -> (h: usize)
        requires
            self.wf(),
        ensures
            h == self.spec_height(),
    {
        if self.width == 0 {
            0
        } else {
            self.glyphs.len() / (self.width as usize)
        }
    }
}

} // verus!
