//! Payload extractors: pure decodings of a raw message's packed parameters
//! into the typed arguments a callback receives.

use vstd::prelude::*;

use crate::constants::{
    BTN_MOUSE_LEFT, BTN_MOUSE_MIDDLE, BTN_MOUSE_RIGHT, MOD_MOUSE_CTRL, MOD_MOUSE_SHIFT,
    WM_LBUTTONDOWN, WM_LBUTTONUP, WM_MBUTTONDOWN, WM_MBUTTONUP, WM_RBUTTONDOWN, WM_RBUTTONUP,
};

verus! {

/// A window rectangle as the host system reports it: edges, not extents.
/// For an in-progress resize the raw message's second parameter carries it;
/// for a completed resize the host glue queries the current rectangle.
#[derive(Clone, Copy, Debug, PartialEq, Eq, Structural)]
pub struct Rect {
    pub left: i32,
    pub top: i32,
    pub right: i32,
    pub bottom: i32,
}

impl Rect {
    /// A rectangle the host can report: edges in order, so that the extents
    /// are representable.
    pub open spec fn wf(self) -> bool {
        self.left <= self.right && self.top <= self.bottom
    }
}

/// The x coordinate packed into the low word of the second parameter,
/// read as a signed 16-bit value.
pub open spec fn mouse_x(l: u64) -> i32 {
    ((l & 0xFFFF) as u16) as i16 as i32
}

/// The y coordinate packed into the second word of the second parameter,
/// read as a signed 16-bit value.
pub open spec fn mouse_y(l: u64) -> i32 {
    (((l >> 16u64) & 0xFFFF) as u16) as i16 as i32
}

/// The button a specific button-up or button-down message kind implies,
/// whether or not the generic mask parameter carries it.
pub open spec fn implied_button(msg: u32) -> u32 {
    if msg == WM_LBUTTONUP || msg == WM_LBUTTONDOWN {
        BTN_MOUSE_LEFT
    } else if msg == WM_RBUTTONUP || msg == WM_RBUTTONDOWN {
        BTN_MOUSE_RIGHT
    } else if msg == WM_MBUTTONUP || msg == WM_MBUTTONDOWN {
        BTN_MOUSE_MIDDLE
    } else {
        0
    }
}

/// The button mask of a mouse message: the generic mask bits of the first
/// parameter, with the button implied by the message kind ORed in.
pub open spec fn button_mask(msg: u32, w: u64) -> u32 {
    ((w as u32) & (BTN_MOUSE_MIDDLE | BTN_MOUSE_RIGHT | BTN_MOUSE_LEFT)) | implied_button(msg)
}

/// The modifier mask (ctrl/shift) of a mouse message's first parameter.
pub open spec fn modifier_mask(w: u64) -> u32 {
    (w as u32) & (MOD_MOUSE_CTRL | MOD_MOUSE_SHIFT)
}

/// Translate a mouse message's parameters into (x, y, buttons, modifiers).
pub fn handle_btn(msg: u32, w: u64, l: u64) -> (r: (i32, i32, u32, u32))
    ensures
        r == (mouse_x(l), mouse_y(l), button_mask(msg, w), modifier_mask(w)),
{
    let x: i32 = ((l & 0xFFFF) as u16) as i16 as i32;
    let y: i32 = (((l >> 16u64) & 0xFFFF) as u16) as i16 as i32;
    let modifiers: u32 = (w as u32) & (MOD_MOUSE_CTRL | MOD_MOUSE_SHIFT);
    let mut btn: u32 = (w as u32) & (BTN_MOUSE_MIDDLE | BTN_MOUSE_RIGHT | BTN_MOUSE_LEFT);
    btn = btn | (if msg == WM_LBUTTONUP || msg == WM_LBUTTONDOWN {
        BTN_MOUSE_LEFT
    } else if msg == WM_RBUTTONUP || msg == WM_RBUTTONDOWN {
        BTN_MOUSE_RIGHT
    } else if msg == WM_MBUTTONUP || msg == WM_MBUTTONDOWN {
        BTN_MOUSE_MIDDLE
    } else {
        0
    });
    (x, y, btn, modifiers)
}

/// The button mask of every button-up or button-down message includes the
/// button the message kind itself implies, even when the generic mask bits
/// of the first parameter are all zero.
pub proof fn lemma_button_mask_includes_implied(msg: u32, w: u64)
    requires
        implied_button(msg) != 0,
    ensures
        button_mask(msg, w) & implied_button(msg) == implied_button(msg),
{
    let generic = (w as u32) & (BTN_MOUSE_MIDDLE | BTN_MOUSE_RIGHT | BTN_MOUSE_LEFT);
    let implied = implied_button(msg);
    assert((generic | implied) & implied == implied) by (bit_vector);
}

/// The resize payload a rectangle yields: origin and extents.
pub open spec fn rect_payload(r: Rect) -> (int, int, int, int) {
    (r.left as int, r.top as int, r.right - r.left, r.bottom - r.top)
}

/// Translate a window rectangle into the (x, y, width, height) payload of a
/// resize event.  Both the in-progress and the completed resize notification
/// funnel the rectangle they stand for through here, so equal rectangles
/// yield equal payloads whichever of the two kinds fired.
pub fn handle_sizing(rect: &Rect) -> (r: (i32, i32, u32, u32))
    requires
        rect.wf(),
    ensures
        (r.0 as int, r.1 as int, r.2 as int, r.3 as int) == rect_payload(*rect),
{
    let width: u32 = (rect.right as i64 - rect.left as i64) as u32;
    let height: u32 = (rect.bottom as i64 - rect.top as i64) as u32;
    (rect.left, rect.top, width, height)
}

} // verus!
