//! A character-grid display library: a compact glyph code space, screen
//! snapshots, normalized input events, and the render-thread state machine
//! that a platform backend drives.

pub mod glyph_parts;
pub mod glyphcode;
pub mod gridui;
pub mod input_event;
pub mod render;
pub mod screen;
