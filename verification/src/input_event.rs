//! The input event model: the closed set of normalized events a render
//! backend reports back to the application thread, independent of the
//! originating platform.

use vstd::prelude::*;

verus! {

/// A normalized user-input event. Pointer coordinates and sizes are in grid
/// cells, not pixels; key payloads are glyph codes.
#[derive(Copy, Clone, Debug, PartialEq, Eq, Structural)]
pub enum InputEvent {
    /// The window was closed; terminal, emitted exactly once.
    Close,
    /// The primary pointer button went down over the given cell.
    MouseDown(u32, u32),
    /// The primary pointer button was released over the given cell.
    MouseUp(u32, u32),
    /// A key carrying the given glyph code was pressed.
    KeyDown(u32),
    /// A key carrying the given glyph code was released.
    KeyUp(u32),
    /// The grid size changed to the given columns and rows.
    Size(u32, u32),
}

} // verus!
