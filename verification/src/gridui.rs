//! The cross-thread facade interface: what the application thread sees of
//! a running render backend, hiding backend selection and threading.

use crate::input_event::InputEvent;
use crate::screen::Screen;
use vstd::prelude::*;

verus! {

/// The single cross-thread interface the application thread uses. A backend
/// wires two one-directional channels to its render thread: screens go in,
/// input events come out.
pub trait GridUiInterface {
    /// Hands the screen to the render thread and signals it to wake;
    /// fire-and-forget, never waits for the screen to be drawn.
    fn send_screen(&self, screen: Screen);

    /// Blocks the calling thread until the next input event is available.
    fn get_input_event(&self) -> InputEvent;
}

} // verus!
