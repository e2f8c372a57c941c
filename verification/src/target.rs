//! Per-target bookkeeping of the automation plugin surface: one injection
//! target's identity, its tracked keyboard and mouse-button state, and the
//! bounds-checked pixel-offset computation behind the image-data query.

use vstd::prelude::*;

use crate::input::{key_down, key_up, lbutton, mbutton, rbutton, spec_key_message,
    spec_mouse_message};
use crate::messages::{PostedMessage, WM_LBUTTONDOWN, WM_LBUTTONUP, WM_MBUTTONDOWN, WM_MBUTTONUP,
    WM_RBUTTONDOWN, WM_RBUTTONUP};
use crate::shm::IMAGE_DATA_SIZE;

verus! {

/// Number of virtual keys whose pressed state a target tracks.
pub const KEYBOARD_STATE_SIZE: usize = 255;

/// Number of tracked mouse-button slots: left, middle, right.
pub const MOUSE_STATE_SIZE: usize = 3;

/// The tracked slot of a mouse-button code: left is 1; middle is 2, with 4
/// and 5 treated as middle as well; right is 3.  Other codes are unknown.
pub open spec fn spec_button_slot(button: i32) -> Option<int> {
    if button == 1 {
        Some(0int)
    } else if button == 2 || button == 4 || button == 5 {
        Some(1int)
    } else if button == 3 {
        Some(2int)
    } else {
        None
    }
}

/// The message a known button posts for a transition at (x, y).
pub open spec fn spec_button_message(hwnd: u64, slot: int, down: bool, x: i32, y: i32) -> PostedMessage {
    if slot == 0 {
        spec_mouse_message(
            hwnd,
            if down {
                WM_LBUTTONDOWN
            } else {
                WM_LBUTTONUP
            },
            x,
            y,
        )
    } else if slot == 1 {
        spec_mouse_message(
            hwnd,
            if down {
                WM_MBUTTONDOWN
            } else {
                WM_MBUTTONUP
            },
            x,
            y,
        )
    } else {
        spec_mouse_message(
            hwnd,
            if down {
                WM_RBUTTONDOWN
            } else {
                WM_RBUTTONUP
            },
            x,
            y,
        )
    }
}

/// One automation target: the process and window it drives, and the
/// synthetic keyboard and mouse-button state posted to it so far.
pub struct SimbaTarget {
    pub pid: u32,
    pub hwnd: u64,
    pub keyboard: Vec<bool>,
    pub mouse: Vec<bool>,
}

impl SimbaTarget {
    pub open spec fn wf(self) -> bool {
        &&& self.keyboard.len() == KEYBOARD_STATE_SIZE
        &&& self.mouse.len() == MOUSE_STATE_SIZE
    }

    /// A fresh target: nothing pressed.
    pub fn new(pid: u32, hwnd: u64) -> (t: SimbaTarget)
        ensures
            t.wf(),
            t.pid == pid,
            t.hwnd == hwnd,
            forall|i: int| 0 <= i < KEYBOARD_STATE_SIZE ==> !t.keyboard@[i],
            forall|i: int| 0 <= i < MOUSE_STATE_SIZE ==> !t.mouse@[i],
    {
        let mut keyboard: Vec<bool> = Vec::with_capacity(KEYBOARD_STATE_SIZE);
        let mut i: usize = 0;
        while i < KEYBOARD_STATE_SIZE
            invariant
                i <= KEYBOARD_STATE_SIZE,
                keyboard@.len() == i,
                forall|j: int| 0 <= j < i ==> !keyboard@[j],
            decreases KEYBOARD_STATE_SIZE - i,
        {
            keyboard.push(false);
            i = i + 1;
        }
        let mut mouse: Vec<bool> = Vec::with_capacity(MOUSE_STATE_SIZE);
        mouse.push(false);
        mouse.push(false);
        mouse.push(false);
        SimbaTarget { pid, hwnd, keyboard, mouse }
    }

    /// Posts a button-down at (x, y) for a known button code, recording it
    /// as held; an unknown code posts nothing and records nothing.
    pub fn mouse_down(&mut self, button: i32, x: i32, y: i32) -> (r: Option<PostedMessage>)
        requires
            old(self).wf(),
            0 <= x <= 0xFFFF,
            0 <= y <= 0xFFFF,
        ensures
            final(self).wf(),
            final(self).pid == old(self).pid,
            final(self).hwnd == old(self).hwnd,
            final(self).keyboard == old(self).keyboard,
            r is Some <==> spec_button_slot(button) is Some,
            spec_button_slot(button) matches Some(slot) ==> r == Some(
                spec_button_message(old(self).hwnd, slot, true, x, y),
            ) && final(self).mouse@ == old(self).mouse@.update(slot, true),
            spec_button_slot(button) is None ==> *final(self) == *old(self),
    {
        self.apply_button(button, true, x, y)
    }

    /// Posts a button-up at (x, y) for a known button code, recording it as
    /// released; an unknown code posts nothing and records nothing.
    pub fn mouse_up(&mut self, button: i32, x: i32, y: i32) -> (r: Option<PostedMessage>)
        requires
            old(self).wf(),
            0 <= x <= 0xFFFF,
            0 <= y <= 0xFFFF,
        ensures
            final(self).wf(),
            final(self).pid == old(self).pid,
            final(self).hwnd == old(self).hwnd,
            final(self).keyboard == old(self).keyboard,
            r is Some <==> spec_button_slot(button) is Some,
            spec_button_slot(button) matches Some(slot) ==> r == Some(
                spec_button_message(old(self).hwnd, slot, false, x, y),
            ) && final(self).mouse@ == old(self).mouse@.update(slot, false),
            spec_button_slot(button) is None ==> *final(self) == *old(self),
    {
        self.apply_button(button, false, x, y)
    }

    /// Shared body of the two button transitions.
    fn apply_button(&mut self, button: i32, down: bool, x: i32, y: i32) -> (r: Option<
        PostedMessage,
    >)
        requires
            old(self).wf(),
            0 <= x <= 0xFFFF,
            0 <= y <= 0xFFFF,
        ensures
            final(self).wf(),
            final(self).pid == old(self).pid,
            final(self).hwnd == old(self).hwnd,
            final(self).keyboard == old(self).keyboard,
            r is Some <==> spec_button_slot(button) is Some,
            spec_button_slot(button) matches Some(slot) ==> r == Some(
                spec_button_message(old(self).hwnd, slot, down, x, y),
            ) && final(self).mouse@ == old(self).mouse@.update(slot, down),
            spec_button_slot(button) is None ==> *final(self) == *old(self),
    {
        if button == 1 {
            let m = lbutton(self.hwnd, down, x, y);
            self.mouse.set(0, down);
            Some(m)
        } else if button == 2 || button == 4 || button == 5 {
            let m = mbutton(self.hwnd, down, x, y);
            self.mouse.set(1, down);
            Some(m)
        } else if button == 3 {
            let m = rbutton(self.hwnd, down, x, y);
            self.mouse.set(2, down);
            Some(m)
        } else {
            None
        }
    }

    /// Whether a button code is recorded as held; an unknown code is never
    /// held.
    pub fn mouse_pressed(&self, button: i32) -> (r: bool)
        requires
            self.wf(),
        ensures
            r == match spec_button_slot(button) {
                Some(slot) => self.mouse@[slot],
                None => false,
            },
    {
        if button == 1 {
            self.mouse[0]
        } else if button == 2 || button == 4 || button == 5 {
            self.mouse[1]
        } else if button == 3 {
            self.mouse[2]
        } else {
            false
        }
    }

    /// Posts a key-down for a tracked virtual key, recording it as held.
    pub fn key_down(&mut self, key: i32, scancode: u32) -> (m: PostedMessage)
        requires
            old(self).wf(),
            0 <= key < KEYBOARD_STATE_SIZE,
            scancode <= 0xFF,
        ensures
            final(self).wf(),
            final(self).pid == old(self).pid,
            final(self).hwnd == old(self).hwnd,
            final(self).mouse == old(self).mouse,
            m == spec_key_message(old(self).hwnd, key, scancode, true),
            final(self).keyboard@ == old(self).keyboard@.update(key as int, true),
    {
        let m = key_down(self.hwnd, key, scancode);
        self.keyboard.set(key as usize, true);
        m
    }

    /// Posts a key-up for a tracked virtual key, recording it as released.
    pub fn key_up(&mut self, key: i32, scancode: u32) -> (m: PostedMessage)
        requires
            old(self).wf(),
            0 <= key < KEYBOARD_STATE_SIZE,
            scancode <= 0xFF,
        ensures
            final(self).wf(),
            final(self).pid == old(self).pid,
            final(self).hwnd == old(self).hwnd,
            final(self).mouse == old(self).mouse,
            m == spec_key_message(old(self).hwnd, key, scancode, false),
            final(self).keyboard@ == old(self).keyboard@.update(key as int, false),
    {
        let m = key_up(self.hwnd, key, scancode);
        self.keyboard.set(key as usize, false);
        m
    }

    /// Whether a tracked virtual key is recorded as held.
    pub fn key_pressed(&self, key: i32) -> (r: bool)
        requires
            self.wf(),
            0 <= key < KEYBOARD_STATE_SIZE,
        ensures
            r == self.keyboard@[key as int],
    {
        self.keyboard[key as usize]
    }
}

/// The byte offset of pixel (x, y) in a captured frame of the given
/// dimensions: 4 bytes per pixel, rows of `width` pixels.  Refused — with no
/// offset handed out — when the pixel lies outside the frame or the frame
/// does not fit the fixed capacity; an accepted offset always has all four
/// bytes of its pixel inside the frame.
pub fn image_data_offset(x: i32, y: i32, width: i32, height: i32) -> (r: Option<usize>)
    ensures
        r is Some <==> (0 <= x < width && 0 <= y < height && width * height * 4
            <= IMAGE_DATA_SIZE),
        r matches Some(off) ==> off == (y * width + x) * 4 && off + 4 <= width * height * 4,
{
    if x < 0 || y < 0 || width <= 0 || height <= 0 || x >= width || y >= height {
        return None;
    }
    let w64 = width as u64;
    let h64 = height as u64;
    proof {
        assert(w64 * h64 <= 0x4000000000000000) by (nonlinear_arith)
            requires
                0 <= w64 < 0x80000000,
                0 <= h64 < 0x80000000,
        ;
    }
    let pixels: u64 = w64 * h64;
    if pixels > 8294400 {
        proof {
            assert(!(width * height * 4 <= IMAGE_DATA_SIZE)) by (nonlinear_arith)
                requires
                    width * height == pixels,
                    pixels > 8294400,
                    IMAGE_DATA_SIZE == 33177602,
            ;
        }
        return None;
    }
    proof {
        assert(width * height * 4 <= IMAGE_DATA_SIZE && (y * width + x) * 4 + 4 <= width * height
            * 4 && 0 <= (y * width + x) * 4 && (y as u64 * w64 + x as u64) * 4 == (y * width + x)
            * 4) by (nonlinear_arith)
            requires
                0 <= x < width,
                0 <= y < height,
                width * height == pixels,
                pixels <= 8294400,
                w64 == width,
                h64 == height,
                IMAGE_DATA_SIZE == 33177602,
        ;
    }
    let off64: u64 = ((y as u64) * w64 + (x as u64)) * 4;
    Some(off64 as usize)
}

} // verus!
