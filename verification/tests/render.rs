use gridui::glyph_parts::glyph_to_parts;
use gridui::input_event::InputEvent;
use gridui::render::{key_down_event, key_up_event, windows_keycode_to_character, RenderState};
use gridui::screen::{Glyph, Screen};

fn cell(character: u32) -> Glyph {
    Glyph { character, foreground: 0xFFFFFF, background: 0 }
}

fn screen_of(width: u32, characters: &[u32]) -> Screen {
    Screen::new(characters.iter().map(|&c| cell(c)).collect(), width)
}

#[test]
fn resize_dedup_emits_once() {
    let mut st = RenderState::new(30);
    let first = st.on_size(300, 150);
    assert_eq!(first, Some(InputEvent::Size(20, 5)));
    let second = st.on_size(300, 150);
    assert_eq!(second, None);
    let third = st.on_size(150, 150);
    assert_eq!(third, Some(InputEvent::Size(10, 5)));
}

#[test]
fn drain_to_latest_keeps_only_the_newest() {
    let mut st = RenderState::new(30);
    let a = screen_of(1, &[0x1000]);
    let b = screen_of(1, &[0x1010]);
    let c = screen_of(1, &[0x1020]);
    let redraw = st.receive_screens(vec![a, b, c.clone()]);
    assert!(redraw);
    assert_eq!(st.screen.width, 1);
    assert_eq!(st.screen.glyphs, c.glyphs);
}

#[test]
fn no_pending_screens_keeps_the_current_one() {
    let mut st = RenderState::new(30);
    let a = screen_of(2, &[0, 0]);
    assert!(st.receive_screens(vec![a.clone()]));
    assert!(!st.receive_screens(vec![]));
    assert_eq!(st.screen.glyphs, a.glyphs);
    assert_eq!(st.screen.width, 2);
}

#[test]
fn click_lands_on_the_grid_cell() {
    // cellHeight 30 gives cellWidth 15: pixel (20, 40) lies in cell (1, 1).
    let mut st = RenderState::new(30);
    let screen = screen_of(2, &[0, 0, 0, 0]);
    assert!(st.receive_screens(vec![screen]));
    assert_eq!(st.pointer_down(20, 40), InputEvent::MouseDown(1, 1));
    assert_eq!(st.pointer_up(20, 40), InputEvent::MouseUp(1, 1));
    assert_eq!(st.pointer_down(0, 0), InputEvent::MouseDown(0, 0));
    assert_eq!(st.pointer_down(29, 29), InputEvent::MouseDown(1, 0));
}

#[test]
fn empty_screen_clears_the_filled_region() {
    let mut st = RenderState::new(30);
    assert!(st.receive_screens(vec![screen_of(3, &[0x1000, 0x1010, 0x1020])]));
    assert_eq!(st.filled_extent(), (45, 30));
    // An empty screen is a valid send and must clear the filled region.
    assert!(st.receive_screens(vec![screen_of(0, &[])]));
    assert_eq!(st.filled_extent(), (0, 0));
}

#[test]
fn close_is_emitted_exactly_once() {
    let mut st = RenderState::new(30);
    assert_eq!(st.on_close(), Some(InputEvent::Close));
    assert_eq!(st.on_close(), None);
}

#[test]
fn cell_origin_scales_by_cell_size() {
    let st = RenderState::new(40);
    assert_eq!(st.cell_width(), 20);
    assert_eq!(st.cell_origin(0, 0), (0, 0));
    assert_eq!(st.cell_origin(3, 2), (60, 80));
}

#[test]
fn key_codes_translate_to_glyph_codes() {
    assert_eq!(windows_keycode_to_character(b'A'), Some(0x1000));
    assert_eq!(windows_keycode_to_character(b'Z'), Some(0x1000 + 25 * 16));
    assert_eq!(windows_keycode_to_character(b'0'), Some(10));
    assert_eq!(windows_keycode_to_character(b'9'), Some(19));
    assert_eq!(windows_keycode_to_character(b' '), Some(0));
    assert_eq!(windows_keycode_to_character(0xBE), None);
    assert_eq!(key_down_event(b'A'), Some(InputEvent::KeyDown(0x1000)));
    assert_eq!(key_up_event(b'A'), Some(InputEvent::KeyUp(0x1000)));
    assert_eq!(key_down_event(0xBE), None);
}

#[test]
fn screens_hold_whole_rows() {
    let empty = screen_of(0, &[]);
    assert_eq!(empty.height(), 0);
    assert_eq!(empty.glyphs.len(), 0);
    let two_rows = screen_of(2, &[0, 1, 2, 3]);
    assert_eq!(two_rows.height(), 2);
}

#[test]
fn symbol_and_digit_glyphs_draw_as_one_part() {
    assert_eq!(glyph_to_parts(0), vec![129]);
    assert_eq!(glyph_to_parts(9), vec![138]);
    assert_eq!(glyph_to_parts(10), vec![139]);
    assert_eq!(glyph_to_parts(18), vec![147]);
    assert_eq!(glyph_to_parts(19), vec![149]);
}

#[test]
fn unknown_glyphs_draw_as_the_three_part_placeholder() {
    assert_eq!(glyph_to_parts(42), vec![0, 1, 19]);
    assert_eq!(glyph_to_parts(0x1000), vec![0, 1, 19]);
    assert_eq!(glyph_to_parts(u32::MAX), vec![0, 1, 19]);
}
