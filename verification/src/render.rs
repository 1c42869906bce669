//! The render-thread state machine: the platform-independent decisions a
//! render backend makes while servicing its native event loop.
//!
//! A backend owns one [`RenderState`] on its render thread and feeds it
//! native happenings — a resize, a pointer press, a key, a batch of pending
//! screens, a close request. Each method answers with the normalized
//! [`InputEvent`] to emit (if any) and keeps the render-thread-local state:
//! the current screen and the last announced grid size. Pixel coordinates
//! are converted to grid cells by integer division with the fixed cell
//! dimensions (`cellWidth = cellHeight / 2`), truncating fractional
//! offsets.

use crate::input_event::InputEvent;
use crate::screen::Screen;
use vstd::prelude::*;

verus! {

/// Render-thread-local state: the screen being shown, the last announced
/// grid size, the configured cell height, and whether the backend is still
/// running (no `Close` emitted yet).
pub struct RenderState {
    /// The screen currently shown; replaced wholesale by newer snapshots.
    pub screen: Screen,
    /// The grid size last announced through a `Size` event, if any.
    pub announced: Option<(u32, u32)>,
    /// Height of one grid cell in pixels; the cell width is half of it.
    pub cell_height: u32,
    /// Whether the event loop is still running; cleared when `Close` is
    /// emitted, which happens exactly once.
    pub running: bool,
}

impl RenderState {
    /// Well-formedness: the stored screen satisfies its row invariant and
    /// the cell height admits a positive cell width.
    pub open spec fn wf(&self) -> bool {
        &&& self.screen.wf()
        &&& self.cell_height >= 2
    }

    /// Width of one grid cell in pixels.
    pub open spec fn spec_cell_width(&self) -> u32 {
        self.cell_height / 2
    }

    /// A fresh backend state: empty screen, nothing announced yet, running.
    pub fn new(cell_height: u32) -> (st: RenderState)
        requires
            cell_height >= 2,
        ensures
            st.screen.width == 0,
            st.screen.glyphs@.len() == 0,
            st.announced is None,
            st.cell_height == cell_height,
            st.running,
            st.wf(),
    {
        RenderState {
            screen: Screen { glyphs: Vec::new(), width: 0 },
            announced: None,
            cell_height,
            running: true,
        }
    }

    /// Width of one grid cell in pixels.
    pub fn cell_width(&self) -> (w: u32)
        ensures
            w == self.spec_cell_width(),
    {
        self.cell_height / 2
    }

    /// The grid size, in whole cells, of a client area of the given pixel
    /// dimensions.
    pub open spec fn grid_size_of(self, width_px: u32, height_px: u32) -> (u32, u32) {
        (width_px / self.spec_cell_width(), height_px / self.cell_height)
    }

    /// The state after servicing a resize to the given pixel dimensions.
    pub open spec fn on_size_next(self, width_px: u32, height_px: u32) -> RenderState {
        RenderState { announced: Some(self.grid_size_of(width_px, height_px)), ..self }
    }

    /// The event a resize to the given pixel dimensions emits: a `Size`
    /// event, unless the computed grid size was already announced.
    pub open spec fn on_size_event(self, width_px: u32, height_px: u32) -> Option<InputEvent> {
        let (cols, rows) = self.grid_size_of(width_px, height_px);
        if self.announced == Some((cols, rows)) {
            None
        } else {
            Some(InputEvent::Size(cols, rows))
        }
    }

    /// Services a native resize: recomputes the grid size from the new
    /// client area and answers with a `Size` event only if it differs from
    /// the last announced size — the de-duplication policy.
    pub fn on_size(&mut self, width_px: u32, height_px: u32) -> (ev: Option<InputEvent>)
        requires
            old(self).wf(),
        ensures
            *final(self) == old(self).on_size_next(width_px, height_px),
            ev == old(self).on_size_event(width_px, height_px),
            final(self).wf(),
    {
        let cell_width = self.cell_height / 2;
        let cols = width_px / cell_width;
        let rows = height_px / self.cell_height;
        let same = match self.announced {
            Some((c, r)) => c == cols && r == rows,
            None => false,
        };
        self.announced = Some((cols, rows));
        if same {
            None
        } else {
            Some(InputEvent::Size(cols, rows))
        }
    }

    /// Translates a pointer press at a pixel position into a `MouseDown`
    /// on the cell containing it.
    pub fn pointer_down(&self, x: u32, y: u32) -> (ev: InputEvent)
        requires
            self.wf(),
        ensures
            ev == InputEvent::MouseDown(x / self.spec_cell_width(), y / self.cell_height),
    {
        let cell_width = self.cell_height / 2;
        InputEvent::MouseDown(x / cell_width, y / self.cell_height)
    }

    /// Translates a pointer release at a pixel position into a `MouseUp`
    /// on the cell containing it.
    pub fn pointer_up(&self, x: u32, y: u32) -> (ev: InputEvent)
        requires
            self.wf(),
        ensures
            ev == InputEvent::MouseUp(x / self.spec_cell_width(), y / self.cell_height),
    {
        let cell_width = self.cell_height / 2;
        InputEvent::MouseUp(x / cell_width, y / self.cell_height)
    }

    /// Stores the newest of the screens drained from the screen channel —
    /// last-write-wins, older queued frames are discarded unrendered — and
    /// answers whether a redraw is needed.
    pub fn receive_screens(&mut self, screens: Vec<Screen>) -> (redraw: bool)
        requires
            old(self).wf(),
            forall|i: int| 0 <= i < screens@.len() ==> (#[trigger] screens@[i]).wf(),
        ensures
            final(self).announced == old(self).announced,
            final(self).cell_height == old(self).cell_height,
            final(self).running == old(self).running,
            redraw == (screens@.len() > 0),
            screens@.len() > 0 ==> final(self).screen == screens@.last(),
            screens@.len() == 0 ==> final(self).screen == old(self).screen,
            final(self).wf(),
    {
        let mut screens = screens;
        match screens.pop() {
            Some(newest) => {
                self.screen = newest;
                true
            },
            None => false,
        }
    }

    /// Services a close request: emits `Close` and stops, exactly once; a
    /// repeated close request emits nothing.
    pub fn on_close(&mut self) -> (ev: Option<InputEvent>)
        ensures
            final(self).screen == old(self).screen,
            final(self).announced == old(self).announced,
            final(self).cell_height == old(self).cell_height,
            !final(self).running,
            ev == if old(self).running {
                Some(InputEvent::Close)
            } else {
                None::<InputEvent>
            },
    {
        if self.running {
            self.running = false;
            Some(InputEvent::Close)
        } else {
            None
        }
    }

    /// The pixel origin of a cell: `(col * cellWidth, row * cellHeight)`.
    pub fn cell_origin(&self, col: u32, row: u32) -> (p: (u64, u64))
        requires
            self.wf(),
        ensures
            p.0 == col * self.spec_cell_width(),
            p.1 == row * self.cell_height,
    {
        proof {
            lemma_mul_le(col as int, (self.cell_height / 2) as int, u32::MAX as int, u32::MAX as int);
            lemma_mul_le(row as int, self.cell_height as int, u32::MAX as int, u32::MAX as int);
        }
        ((col as u64) * ((self.cell_height / 2) as u64), (row as u64) * (self.cell_height as u64))
    }

    /// The pixel extent of the filled grid region, recomputed from the
    /// currently stored screen: the filler beyond it is painted neutral on
    /// every redraw.
    pub fn filled_extent(&self) -> (e: (u64, u64))
        requires
            self.wf(),
            self.screen.glyphs@.len() * self.cell_height <= u64::MAX,
        ensures
            e.0 == self.screen.width * self.spec_cell_width(),
            e.1 == self.screen.spec_height() * self.cell_height,
    {
        let cell_width = (self.cell_height / 2) as u64;
        proof {
            lemma_mul_le(
                self.screen.width as int,
                cell_width as int,
                u32::MAX as int,
                u32::MAX as int,
            );
        }
        let x = (self.screen.width as u64) * cell_width;
        let rows: u64 = if self.screen.width == 0 {
            0
        } else {
            proof {
                let len = self.screen.glyphs@.len() as int;
                let w = self.screen.width as int;
                assert(len / w <= len) by (nonlinear_arith)
                    requires
                        w >= 1,
                        len >= 0,
                ;
            }
            (self.screen.glyphs.len() / (self.screen.width as usize)) as u64
        };
        proof {
            let len = self.screen.glyphs@.len() as int;
            let ch = self.cell_height as int;
            assert(rows * ch <= len * ch) by (nonlinear_arith)
                requires
                    rows <= len,
                    ch >= 0,
            ;
        }
        let y = rows * (self.cell_height as u64);
        (x, y)
    }
}

/// A product of nonnegative factors is bounded by the product of their
/// bounds.
proof fn lemma_mul_le(a: int, b: int, x: int, y: int)
    by (nonlinear_arith)
    requires
        0 <= a <= x,
        0 <= b <= y,
    ensures
        a * b <= x * y,
{
}

/// De-duplication of resize announcements: servicing the same pixel
/// dimensions twice in a row emits a `Size` event at most once — the second
/// resize emits nothing.
pub proof fn lemma_resize_dedup(st: RenderState, width_px: u32, height_px: u32)
    ensures
        st.on_size_next(width_px, height_px).on_size_event(width_px, height_px) is None,
{
}

/// The glyph code a platform key code stands for: letter keys carry the
/// lowercase letter codes, digit keys the digit codes, and the space bar the
/// space symbol.
pub open spec fn keycode_glyph(keycode: u8) -> Option<u32> {
    if 65 <= keycode && keycode <= 90 {
        Some((0x1000 + (keycode - 65) * 16) as u32)
    } else if 48 <= keycode && keycode <= 57 {
        Some((10 + (keycode - 48)) as u32)
    } else if keycode == 32 {
        Some(0u32)
    } else {
        None
    }
}

/// Translates a platform virtual-key code into a glyph code; unsupported
/// keys yield nothing and are ignored rather than propagated.
pub fn windows_keycode_to_character(keycode: u8) -> (r: Option<u32>)
    ensures
        r == keycode_glyph(keycode),
{
    if 65 <= keycode && keycode <= 90 {
        Some(0x1000 + ((keycode - 65) as u32) * 16)
    } else if 48 <= keycode && keycode <= 57 {
        Some(10 + (keycode - 48) as u32)
    } else if keycode == 32 {
        Some(0)
    } else {
        None
    }
}

/// The event a key press emits: `KeyDown` with the key's glyph code, or
/// nothing for an unsupported key.
pub fn key_down_event(keycode: u8) -> (ev: Option<InputEvent>)
    ensures
        ev == match keycode_glyph(keycode) {
            Some(code) => Some(InputEvent::KeyDown(code)),
            None => None::<InputEvent>,
        },
{
    match windows_keycode_to_character(keycode) {
        Some(code) => Some(InputEvent::KeyDown(code)),
        None => None,
    }
}

/// The event a key release emits: `KeyUp` with the key's glyph code, or
/// nothing for an unsupported key.
pub fn key_up_event(keycode: u8) -> (ev: Option<InputEvent>)
    ensures
        ev == match keycode_glyph(keycode) {
            Some(code) => Some(InputEvent::KeyUp(code)),
            None => None::<InputEvent>,
        },
{
    match windows_keycode_to_character(keycode) {
        Some(code) => Some(InputEvent::KeyUp(code)),
        None => None,
    }
}

} // verus!
