//! Window-message constants and the bit-level encodings of legacy key and
//! mouse message parameters.
//!
//! A key message's parameter packs a repeat count of 1 in the low word, the
//! hardware scan code in bits 16 to 23, and the previous-state and
//! transition-state flags in bits 30 and 31, which are set only for key-up.
//! A mouse message's parameter packs the x coordinate in the low 16 bits and
//! the y coordinate in the next 16.  Parameters are carried here as the raw
//! bits of the platform's machine word.

use vstd::prelude::*;

verus! {

pub const WM_SETFOCUS: u32 = 0x0007;

pub const WM_KILLFOCUS: u32 = 0x0008;

pub const WM_KEYDOWN: u32 = 0x0100;

pub const WM_KEYUP: u32 = 0x0101;

pub const WM_CHAR: u32 = 0x0102;

pub const WM_MOUSEMOVE: u32 = 0x0200;

pub const WM_LBUTTONDOWN: u32 = 0x0201;

pub const WM_LBUTTONUP: u32 = 0x0202;

pub const WM_RBUTTONDOWN: u32 = 0x0204;

pub const WM_RBUTTONUP: u32 = 0x0205;

pub const WM_MBUTTONDOWN: u32 = 0x0207;

pub const WM_MBUTTONUP: u32 = 0x0208;

pub const WM_IME_SETCONTEXT: u32 = 0x0281;

pub const WM_IME_NOTIFY: u32 = 0x0282;

pub const WM_USER: u32 = 0x0400;

/// Private message: toggle the client console window.
pub const WI_CONSOLE: u32 = WM_USER + 1;

/// Private message: apply a new modifier mask (shift, ctrl, alt bits).
pub const WI_MODIFIERS: u32 = WM_USER + 2;

/// Private message: close and reopen the shared-memory mapping.
pub const WI_REMAP: u32 = WM_USER + 3;

/// Private message: tear the hooks down and detach.
pub const WI_DETACH: u32 = WM_USER + 4;

/// Virtual key of the shift modifier.
pub const VK_SHIFT: usize = 0x10;

/// Virtual key of the control modifier.
pub const VK_CONTROL: usize = 0x11;

/// Virtual key of the alt (menu) modifier.
pub const VK_MENU: usize = 0x12;

/// A message posted to a window's queue on behalf of the automation host.
#[derive(Clone, Copy, Debug, PartialEq, Eq, Structural)]
pub struct PostedMessage {
    pub hwnd: u64,
    pub msg: u32,
    pub wparam: usize,
    pub lparam: u64,
}

/// A message handed straight to the original window procedure.
#[derive(Clone, Copy, Debug, PartialEq, Eq, Structural)]
pub struct ForwardedMessage {
    pub msg: u32,
    pub wparam: usize,
    pub lparam: u64,
}

/// The parameter of a synthetic key-down or key-up message.
pub open spec fn spec_key_lparam(scancode: u32, down: bool) -> u64 {
    if down {
        1u64 | ((scancode as u64) << 16)
    } else {
        1u64 | ((scancode as u64) << 16) | 0xC0000000u64
    }
}

proof fn lemma_key_lparam_fields(sc: u64, tail: u64)
    by (bit_vector)
    requires
        sc <= 0xFF,
        tail == 0 || tail == 0xC0000000,
    ensures
        (1u64 | (sc << 16) | tail) & 0xFFFF == 1,
        ((1u64 | (sc << 16) | tail) >> 16) & 0xFF == sc,
        ((1u64 | (sc << 16) | tail) >> 30) & 3 == (if tail == 0 {
            0u64
        } else {
            3u64
        }),
        (1u64 | (sc << 16) | 0) == (1u64 | (sc << 16)),
{
}

/// Packs the parameter of a legacy key message: repeat count 1, the scan
/// code in bits 16 to 23, and both transition flags set exactly for key-up.
pub fn key_message_lparam(scancode: u32, down: bool) -> (r: u64)
    requires
        scancode <= 0xFF,
    ensures
        r == spec_key_lparam(scancode, down),
        r & 0xFFFF == 1,
        (r >> 16) & 0xFF == scancode as u64,
        (r >> 30) & 3 == (if down {
            0u64
        } else {
            3u64
        }),
{
    let sc = scancode as u64;
    let lparam: u64 = if down {
        1u64 | (sc << 16)
    } else {
        1u64 | (sc << 16) | 0xC0000000u64
    };
    proof {
        lemma_key_lparam_fields(
            scancode as u64,
            if down {
                0u64
            } else {
                0xC0000000u64
            },
        );
    }
    lparam
}

/// The parameter of a mouse message: x in the low 16 bits, y in the next 16.
pub open spec fn spec_mouse_lparam(x: u32, y: u32) -> u64 {
    ((y as u64) << 16) | (x as u64)
}

proof fn lemma_mouse_lparam_fields(x: u64, y: u64)
    by (bit_vector)
    requires
        x <= 0xFFFF,
        y <= 0xFFFF,
    ensures
        (((y << 16) | x) & 0xFFFF) == x,
        ((((y << 16) | x) >> 16) & 0xFFFF) == y,
{
}

/// Packs client coordinates into a mouse message parameter.
pub fn mouse_lparam(x: u32, y: u32) -> (r: u64)
    requires
        x <= 0xFFFF,
        y <= 0xFFFF,
    ensures
        r == spec_mouse_lparam(x, y),
        r & 0xFFFF == x as u64,
        (r >> 16) & 0xFFFF == y as u64,
{
    let r = ((y as u64) << 16) | (x as u64);
    proof {
        lemma_mouse_lparam_fields(x as u64, y as u64);
    }
    r
}

/// The x coordinate a message-pump reader decodes from a mouse parameter.
pub open spec fn spec_mouse_x(lparam: u64) -> i32 {
    (lparam & 0xFFFF) as i32
}

/// The y coordinate a message-pump reader decodes from a mouse parameter.
pub open spec fn spec_mouse_y(lparam: u64) -> i32 {
    ((lparam >> 16) & 0xFFFF) as i32
}

/// Law: packing coordinates and decoding them again is the identity — a
/// synthetic mouse move arrives at the hook with the coordinates it was
/// posted with.
pub proof fn lemma_mouse_pack_roundtrip(x: u32, y: u32)
    requires
        x <= 0xFFFF,
        y <= 0xFFFF,
    ensures
        spec_mouse_x(spec_mouse_lparam(x, y)) == x as i32,
        spec_mouse_y(spec_mouse_lparam(x, y)) == y as i32,
{
    lemma_mouse_lparam_fields(x as u64, y as u64);
    assert(spec_mouse_x(spec_mouse_lparam(x, y)) == x as i32) by (bit_vector)
        requires
            x <= 0xFFFF,
            y <= 0xFFFF,
    ;
    assert(spec_mouse_y(spec_mouse_lparam(x, y)) == y as i32) by (bit_vector)
        requires
            x <= 0xFFFF,
            y <= 0xFFFF,
    ;
}

} // verus!
