//! Command relay / input synthesis: fire-and-forget construction of the
//! synthetic mouse and keyboard messages posted into the target window on
//! behalf of the automation host, including legacy key-parameter packing and
//! the modifier-change / key-down / key-up sequencing of text sending.

use vstd::prelude::*;

use crate::messages::{
    key_message_lparam, mouse_lparam, spec_key_lparam, spec_mouse_lparam, PostedMessage,
    WI_MODIFIERS, WM_KEYDOWN, WM_KEYUP, WM_LBUTTONDOWN, WM_LBUTTONUP, WM_MBUTTONDOWN,
    WM_MBUTTONUP, WM_MOUSEMOVE, WM_RBUTTONDOWN, WM_RBUTTONUP,
};
use crate::wndproc::{spec_modifier_bits, ModifierState};

verus! {

/// A synthetic mouse message: coordinates packed into the parameter.
pub open spec fn spec_mouse_message(hwnd: u64, msg: u32, x: i32, y: i32) -> PostedMessage {
    PostedMessage { hwnd, msg, wparam: 0, lparam: spec_mouse_lparam(x as u32, y as u32) }
}

/// A synthetic key message: the virtual key's low byte in the message value,
/// the scan code and transition flags packed into the parameter.
pub open spec fn spec_key_message(hwnd: u64, vkey: i32, scancode: u32, down: bool) -> PostedMessage {
    PostedMessage {
        hwnd,
        msg: if down {
            WM_KEYDOWN
        } else {
            WM_KEYUP
        },
        wparam: (vkey & 0xFF) as usize,
        lparam: spec_key_lparam(scancode, down),
    }
}

/// The modifier-change notification carrying a new absolute modifier mask.
pub open spec fn spec_modifier_message(hwnd: u64, st: ModifierState) -> PostedMessage {
    PostedMessage {
        hwnd,
        msg: WI_MODIFIERS,
        wparam: spec_modifier_bits(st.shift, st.ctrl, st.alt) as usize,
        lparam: 0,
    }
}

/// Builds a synthetic mouse-move message for the given client coordinates.
pub fn mouse_move(hwnd: u64, x: i32, y: i32) -> (m: PostedMessage)
    requires
        0 <= x <= 0xFFFF,
        0 <= y <= 0xFFFF,
    ensures
        m == spec_mouse_message(hwnd, WM_MOUSEMOVE, x, y),
{
    PostedMessage { hwnd, msg: WM_MOUSEMOVE, wparam: 0, lparam: mouse_lparam(x as u32, y as u32) }
}

/// Builds a left-button transition at the given coordinates.
pub fn lbutton(hwnd: u64, down: bool, x: i32, y: i32) -> (m: PostedMessage)
    requires
        0 <= x <= 0xFFFF,
        0 <= y <= 0xFFFF,
    ensures
        m == spec_mouse_message(
            hwnd,
            if down {
                WM_LBUTTONDOWN
            } else {
                WM_LBUTTONUP
            },
            x,
            y,
        ),
{
    PostedMessage {
        hwnd,
        msg: if down {
            WM_LBUTTONDOWN
        } else {
            WM_LBUTTONUP
        },
        wparam: 0,
        lparam: mouse_lparam(x as u32, y as u32),
    }
}

/// Builds a middle-button transition at the given coordinates.
pub fn mbutton(hwnd: u64, down: bool, x: i32, y: i32) -> (m: PostedMessage)
    requires
        0 <= x <= 0xFFFF,
        0 <= y <= 0xFFFF,
    ensures
        m == spec_mouse_message(
            hwnd,
            if down {
                WM_MBUTTONDOWN
            } else {
                WM_MBUTTONUP
            },
            x,
            y,
        ),
{
    PostedMessage {
        hwnd,
        msg: if down {
            WM_MBUTTONDOWN
        } else {
            WM_MBUTTONUP
        },
        wparam: 0,
        lparam: mouse_lparam(x as u32, y as u32),
    }
}

/// Builds a right-button transition at the given coordinates.
pub fn rbutton(hwnd: u64, down: bool, x: i32, y: i32) -> (m: PostedMessage)
    requires
        0 <= x <= 0xFFFF,
        0 <= y <= 0xFFFF,
    ensures
        m == spec_mouse_message(
            hwnd,
            if down {
                WM_RBUTTONDOWN
            } else {
                WM_RBUTTONUP
            },
            x,
            y,
        ),
{
    PostedMessage {
        hwnd,
        msg: if down {
            WM_RBUTTONDOWN
        } else {
            WM_RBUTTONUP
        },
        wparam: 0,
        lparam: mouse_lparam(x as u32, y as u32),
    }
}

/// Scroll synthesis is a documented stub: the intent is only logged by the
/// caller, and no message is posted.
pub fn scroll(hwnd: u64, down: bool, scrolls: i32, x: i32, y: i32) -> (r: Option<PostedMessage>)
    ensures
        r is None,
{
    let _ = hwnd;
    let _ = down;
    let _ = scrolls;
    let _ = x;
    let _ = y;
    None
}

/// Builds a synthetic key-down for a virtual key, given the hardware scan
/// code the platform resolved for it.
pub fn key_down(hwnd: u64, vkey: i32, scancode: u32) -> (m: PostedMessage)
    requires
        scancode <= 0xFF,
    ensures
        m == spec_key_message(hwnd, vkey, scancode, true),
{
    let key = vkey & 0xFF;
    proof {
        assert(0 <= vkey & 0xFF <= 0xFF) by (bit_vector);
    }
    PostedMessage {
        hwnd,
        msg: WM_KEYDOWN,
        wparam: key as usize,
        lparam: key_message_lparam(scancode, true),
    }
}

/// Builds a synthetic key-up for a virtual key: as key-down, but with the
/// previous-state and transition-state flags set in the parameter.
pub fn key_up(hwnd: u64, vkey: i32, scancode: u32) -> (m: PostedMessage)
    requires
        scancode <= 0xFF,
    ensures
        m == spec_key_message(hwnd, vkey, scancode, false),
{
    let key = vkey & 0xFF;
    proof {
        assert(0 <= vkey & 0xFF <= 0xFF) by (bit_vector);
    }
    PostedMessage {
        hwnd,
        msg: WM_KEYUP,
        wparam: key as usize,
        lparam: key_message_lparam(scancode, false),
    }
}

/// A key held for a while: its down message, the hold time, its up message.
#[derive(Clone, Copy, Debug, PartialEq, Eq, Structural)]
pub struct KeyPress {
    pub down: PostedMessage,
    pub hold_ms: u32,
    pub up: PostedMessage,
}

/// Builds the down/up pair of one key press with the requested hold time.
pub fn key_press(hwnd: u64, vkey: i32, scancode: u32, hold_ms: u32) -> (r: KeyPress)
    requires
        scancode <= 0xFF,
    ensures
        r.down == spec_key_message(hwnd, vkey, scancode, true),
        r.hold_ms == hold_ms,
        r.up == spec_key_message(hwnd, vkey, scancode, false),
{
    KeyPress { down: key_down(hwnd, vkey, scancode), hold_ms, up: key_up(hwnd, vkey, scancode) }
}

/// Posts a modifier-change only when the new state differs from the previous
/// one; the message carries the new absolute mask.
pub fn update_modifiers(hwnd: u64, new: ModifierState, prev: ModifierState) -> (r: Option<
    PostedMessage,
>)
    ensures
        r is Some <==> new != prev,
        new != prev ==> r == Some(spec_modifier_message(hwnd, new)),
{
    if new == prev {
        return None;
    }
    let mask: u8 = (if new.shift {
        1u8
    } else {
        0u8
    }) | (if new.ctrl {
        2u8
    } else {
        0u8
    }) | (if new.alt {
        4u8
    } else {
        0u8
    });
    Some(PostedMessage { hwnd, msg: WI_MODIFIERS, wparam: mask as usize, lparam: 0 })
}

/// The modifier state a platform key-scan result encodes in its high byte:
/// bit 0 shift, bit 1 ctrl, bit 2 alt.
pub open spec fn spec_scan_modifiers(scan_result: i16) -> ModifierState {
    ModifierState {
        shift: (scan_result >> 8) & 1 != 0,
        ctrl: (scan_result >> 8) & 2 != 0,
        alt: (scan_result >> 8) & 4 != 0,
    }
}

/// Splits a platform key-scan result into the raw key and the modifier
/// state that produces the character.
pub fn get_key_modifiers(scan_result: i16) -> (r: (i16, bool, bool, bool))
    ensures
        r.0 == scan_result,
        r.1 == spec_scan_modifiers(scan_result).shift,
        r.2 == spec_scan_modifiers(scan_result).ctrl,
        r.3 == spec_scan_modifiers(scan_result).alt,
{
    let modifiers = scan_result >> 8;
    let shift = modifiers & 1 != 0;
    let ctrl = modifiers & 2 != 0;
    let alt = modifiers & 4 != 0;
    (scan_result, shift, ctrl, alt)
}

/// One character of a text send: the platform's key-scan result for the
/// character, the hardware scan code of its key, and the delay to hold it.
#[derive(Clone, Copy, Debug, PartialEq, Eq, Structural)]
pub struct KeyInput {
    pub scan_result: i16,
    pub scancode: u32,
    pub delay_ms: u32,
}

/// One step of the relayed sequence: a posted message or a pause.
#[derive(Clone, Copy, Debug, PartialEq, Eq, Structural)]
pub enum RelayCommand {
    Post { message: PostedMessage },
    Wait { ms: u32 },
}

/// The commands one character contributes: a modifier change when its
/// modifiers differ from the previous character's, then key down, the hold
/// delay, and key up.
pub open spec fn spec_key_stroke(hwnd: u64, prev: ModifierState, k: KeyInput) -> Seq<RelayCommand> {
    let mods = spec_scan_modifiers(k.scan_result);
    (if mods != prev {
        seq![RelayCommand::Post { message: spec_modifier_message(hwnd, mods) }]
    } else {
        Seq::empty()
    }) + seq![
        RelayCommand::Post { message: spec_key_message(hwnd, k.scan_result as i32, k.scancode, true) },
        RelayCommand::Wait { ms: k.delay_ms },
        RelayCommand::Post {
            message: spec_key_message(hwnd, k.scan_result as i32, k.scancode, false),
        },
    ]
}

/// The full relayed sequence for the remaining characters, entered with the
/// modifier state `prev` still applied: each character's stroke in order,
/// and one final modifier release if the last character left modifiers held.
pub open spec fn spec_keys_send_from(hwnd: u64, prev: ModifierState, keys: Seq<KeyInput>) -> Seq<
    RelayCommand,
>
    decreases keys.len(),
{
    if keys.len() == 0 {
        if prev != (ModifierState { shift: false, ctrl: false, alt: false }) {
            seq![
                RelayCommand::Post {
                    message: spec_modifier_message(
                        hwnd,
                        ModifierState { shift: false, ctrl: false, alt: false },
                    ),
                },
            ]
        } else {
            Seq::empty()
        }
    } else {
        spec_key_stroke(hwnd, prev, keys[0]) + spec_keys_send_from(
            hwnd,
            spec_scan_modifiers(keys[0].scan_result),
            keys.drop_first(),
        )
    }
}

/// Builds the whole command sequence of a text send: for each character,
/// a modifier change exactly when its modifiers differ from the previous
/// character's, the key down/up pair around its hold delay, and — once at
/// the end, whatever the text was — a release of any still-held modifiers.
pub fn keys_send(hwnd: u64, keys: &Vec<KeyInput>) -> (cmds: Vec<RelayCommand>)
    requires
        forall|i: int| 0 <= i < keys@.len() ==> (#[trigger] keys@[i as int]).scancode <= 0xFF,
    ensures
        cmds@ == spec_keys_send_from(
            hwnd,
            ModifierState { shift: false, ctrl: false, alt: false },
            keys@,
        ),
{
    let ghost start = ModifierState { shift: false, ctrl: false, alt: false };
    let mut cmds: Vec<RelayCommand> = Vec::new();
    let mut prev = ModifierState::released();
    let mut i: usize = 0;
    proof {
        assert(keys@.skip(0) =~= keys@);
        assert(cmds@ + spec_keys_send_from(hwnd, start, keys@.skip(0)) =~= spec_keys_send_from(
            hwnd,
            start,
            keys@,
        ));
    }
    while i < keys.len()
        invariant
            0 <= i <= keys@.len(),
            forall|j: int| 0 <= j < keys@.len() ==> (#[trigger] keys@[j]).scancode <= 0xFF,
            cmds@ + spec_keys_send_from(hwnd, prev, keys@.skip(i as int)) == spec_keys_send_from(
                hwnd,
                start,
                keys@,
            ),
        decreases keys@.len() - i,
    {
        let ghost prev0 = prev;
        let ghost cmds0 = cmds@;
        let k = keys[i];
        let (key, shift, ctrl, alt) = get_key_modifiers(k.scan_result);
        let mods = ModifierState { shift, ctrl, alt };
        match update_modifiers(hwnd, mods, prev) {
            Some(m) => {
                cmds.push(RelayCommand::Post { message: m });
            },
            None => {},
        }
        let press = key_press(hwnd, key as i32, k.scancode, k.delay_ms);
        cmds.push(RelayCommand::Post { message: press.down });
        cmds.push(RelayCommand::Wait { ms: press.hold_ms });
        cmds.push(RelayCommand::Post { message: press.up });
        proof {
            let rest = keys@.skip(i as int);
            assert(rest[0] == keys@[i as int]);
            assert(rest.drop_first() =~= keys@.skip(i + 1));
            assert(cmds@ =~= cmds0 + spec_key_stroke(hwnd, prev0, keys@[i as int]));
            assert(spec_keys_send_from(hwnd, prev0, rest) == spec_key_stroke(hwnd, prev0, keys@[i as int])
                + spec_keys_send_from(hwnd, spec_scan_modifiers(keys@[i as int].scan_result), keys@.skip(i + 1)));
            assert(cmds@ + spec_keys_send_from(hwnd, mods, keys@.skip(i + 1)) =~= cmds0
                + spec_keys_send_from(hwnd, prev0, rest));
        }
        prev = mods;
        i = i + 1;
    }
    match update_modifiers(hwnd, ModifierState::released(), prev) {
        Some(m) => {
            cmds.push(RelayCommand::Post { message: m });
        },
        None => {},
    }
    proof {
        assert(keys@.skip(keys@.len() as int) =~= Seq::<KeyInput>::empty());
        assert(cmds@ =~= spec_keys_send_from(hwnd, start, keys@));
    }
    cmds
}

} // verus!
