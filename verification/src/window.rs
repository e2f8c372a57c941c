//! Window-level state the automation host queries and sets: the window's
//! client size computed from its rectangle, and the input-enable gate used
//! to lock out human interference while a target is automated.

use vstd::prelude::*;

verus! {

/// A window rectangle in screen coordinates, as the platform reports it.
#[derive(Clone, Copy, Debug, PartialEq, Eq, Structural)]
pub struct WindowRect {
    pub left: i32,
    pub top: i32,
    pub right: i32,
    pub bottom: i32,
}

impl WindowRect {
    /// The platform reports rectangles with ordered edges, and this model
    /// asks that their extents fit the signed word they are returned in.
    pub open spec fn wf(self) -> bool {
        &&& self.left <= self.right
        &&& self.top <= self.bottom
        &&& self.right - self.left <= i32::MAX
        &&& self.bottom - self.top <= i32::MAX
    }
}

/// The window's size from its rectangle; `None` when the rectangle query
/// itself failed.
pub fn get_window_size(rect: Option<WindowRect>) -> (r: Option<(i32, i32)>)
    requires
        rect matches Some(rc) ==> rc.wf(),
    ensures
        r is Some <==> rect is Some,
        rect matches Some(rc) ==> r == Some((
            (rc.right - rc.left) as i32,
            (rc.bottom - rc.top) as i32,
        )),
{
    match rect {
        Some(rc) => Some((rc.right - rc.left, rc.bottom - rc.top)),
        None => None,
    }
}

/// The input-enable state of one target window.
#[derive(Clone, Copy, Debug, PartialEq, Eq, Structural)]
pub struct WindowControl {
    pub hwnd: u64,
    pub enabled: bool,
}

/// True when the window accepts real user input.
pub fn is_input_enabled(w: &WindowControl) -> (r: bool)
    ensures
        r == w.enabled,
{
    w.enabled
}

/// Sets whether the window accepts real user input; reports, as the
/// platform's enable call does, whether the window was previously disabled.
pub fn toggle_input(w: &mut WindowControl, state: bool) -> (was_disabled: bool)
    ensures
        final(w).enabled == state,
        final(w).hwnd == old(w).hwnd,
        was_disabled == !old(w).enabled,
{
    let was_disabled = !w.enabled;
    w.enabled = state;
    was_disabled
}

/// Enables real user input; reports whether the window was disabled before.
pub fn enable_input(w: &mut WindowControl) -> (was_disabled: bool)
    ensures
        final(w).enabled,
        final(w).hwnd == old(w).hwnd,
        was_disabled == !old(w).enabled,
{
    toggle_input(w, true)
}

/// Disables real user input; reports whether the window was disabled before.
pub fn disable_input(w: &mut WindowControl) -> (was_disabled: bool)
    ensures
        !final(w).enabled,
        final(w).hwnd == old(w).hwnd,
        was_disabled == !old(w).enabled,
{
    toggle_input(w, false)
}

/// The diagnostic name of a window message, for logging.
pub fn message2string(msg: u32) -> (r: &'static str) {
    if msg == 0x0000 {
        "WM_NULL"
    } else if msg == 0x0001 {
        "WM_CREATE"
    } else if msg == 0x0002 {
        "WM_DESTROY"
    } else if msg == 0x0003 {
        "WM_MOVE"
    } else if msg == 0x0005 {
        "WM_SIZE"
    } else if msg == 0x0007 {
        "WM_SETFOCUS"
    } else if msg == 0x0008 {
        "WM_KILLFOCUS"
    } else if msg == 0x000F {
        "WM_PAINT"
    } else if msg == 0x0010 {
        "WM_CLOSE"
    } else if msg == 0x0012 {
        "WM_QUIT"
    } else if msg == 0x0014 {
        "WM_ERASEBKGND"
    } else if msg == 0x0018 {
        "WM_SHOWWINDOW"
    } else if msg == 0x001C {
        "WM_ACTIVATEAPP"
    } else if msg == 0x0020 {
        "WM_SETCURSOR"
    } else if msg == 0x0021 {
        "WM_MOUSEACTIVATE"
    } else if msg == 0x0024 {
        "WM_GETMINMAXINFO"
    } else if msg == 0x0084 {
        "WM_NCHITTEST"
    } else if msg == 0x0100 {
        "WM_KEYDOWN"
    } else if msg == 0x0101 {
        "WM_KEYUP"
    } else if msg == 0x0102 {
        "WM_CHAR"
    } else if msg == 0x0104 {
        "WM_SYSKEYDOWN"
    } else if msg == 0x0105 {
        "WM_SYSKEYUP"
    } else if msg == 0x0200 {
        "WM_MOUSEMOVE"
    } else if msg == 0x0201 {
        "WM_LBUTTONDOWN"
    } else if msg == 0x0202 {
        "WM_LBUTTONUP"
    } else if msg == 0x0204 {
        "WM_RBUTTONDOWN"
    } else if msg == 0x0205 {
        "WM_RBUTTONUP"
    } else if msg == 0x0215 {
        "WM_CAPTURECHANGED"
    } else if msg == 0x0281 {
        "WM_IME_SETCONTEXT"
    } else if msg == 0x0282 {
        "WM_IME_NOTIFY"
    } else {
        "UNKNOWN"
    }
}

} // verus!
