use waspinput::messages::{
    mouse_lparam, ForwardedMessage, VK_CONTROL, VK_MENU, VK_SHIFT, WI_CONSOLE, WI_DETACH,
    WI_MODIFIERS, WI_REMAP, WM_CHAR, WM_IME_NOTIFY, WM_IME_SETCONTEXT, WM_KEYDOWN, WM_KEYUP,
    WM_KILLFOCUS, WM_MOUSEMOVE, WM_SETFOCUS,
};
use waspinput::input::update_modifiers;
use waspinput::shm::MemoryManager;
use waspinput::wndproc::{
    apply_hook_command, decode_modifiers, rebuild_key, rewritten_char_message, HookCommand,
    HookState, ModifierScancodes, ModifierState, WndprocDisposition,
};

fn scancodes() -> ModifierScancodes {
    ModifierScancodes { shift: 0x2A, ctrl: 0x1D, alt: 0x38 }
}

fn key_lparam(scancode: u32, down: bool) -> u64 {
    let base = 1u64 | ((scancode as u64) << 16);
    if down {
        base
    } else {
        base | 0xC0000000
    }
}

#[test]
fn decode_modifiers_bits() {
    assert_eq!(decode_modifiers(0), (false, false, false));
    assert_eq!(decode_modifiers(1), (true, false, false));
    assert_eq!(decode_modifiers(2), (false, true, false));
    assert_eq!(decode_modifiers(4), (false, false, true));
    assert_eq!(decode_modifiers(7), (true, true, true));
    assert_eq!(decode_modifiers(5), (true, false, true));
}

#[test]
fn rebuild_key_packs_modifiers_high_byte() {
    assert_eq!(rebuild_key(0x41, false, false, false), 0x0041);
    assert_eq!(rebuild_key(0x41, true, false, false), 0x0141);
    assert_eq!(rebuild_key(0x41, false, true, false), 0x0241);
    assert_eq!(rebuild_key(0x41, true, true, true), 0x0741);
    assert_eq!(rebuild_key(0x41, true, true, false) & 0xFF, 0x41);
}

#[test]
fn modifier_change_posts_one_event_per_flipped_bit() {
    // From (shift up, ctrl down, alt up), mask 0b011 flips shift only:
    // exactly one synthetic key-down for shift, nothing for ctrl or alt.
    let sc = scancodes();
    let mut st = HookState::new();
    let none = st.apply_modifier_change(&sc, 0b010);
    assert_eq!(none.len(), 1);  // ctrl down from scratch
    let events = st.apply_modifier_change(&sc, 0b011);
    assert_eq!(events.len(), 1);
    assert_eq!(
        events[0],
        ForwardedMessage { msg: WM_KEYDOWN, wparam: VK_SHIFT, lparam: key_lparam(0x2A, true) }
    );
    assert!(st.modifiers.shift && st.modifiers.ctrl && !st.modifiers.alt);
}

#[test]
fn modifier_change_full_press_and_release() {
    let sc = scancodes();
    let mut st = HookState::new();
    let downs = st.apply_modifier_change(&sc, 0b111);
    assert_eq!(downs.len(), 3);
    assert_eq!(
        downs[0],
        ForwardedMessage { msg: WM_KEYDOWN, wparam: VK_SHIFT, lparam: key_lparam(0x2A, true) }
    );
    assert_eq!(
        downs[1],
        ForwardedMessage { msg: WM_KEYDOWN, wparam: VK_CONTROL, lparam: key_lparam(0x1D, true) }
    );
    assert_eq!(
        downs[2],
        ForwardedMessage { msg: WM_KEYDOWN, wparam: VK_MENU, lparam: key_lparam(0x38, true) }
    );
    let ups = st.apply_modifier_change(&sc, 0b000);
    assert_eq!(ups.len(), 3);
    assert_eq!(
        ups[0],
        ForwardedMessage { msg: WM_KEYUP, wparam: VK_SHIFT, lparam: key_lparam(0x2A, false) }
    );
    assert_eq!(
        ups[2],
        ForwardedMessage { msg: WM_KEYUP, wparam: VK_MENU, lparam: key_lparam(0x38, false) }
    );
    assert!(!st.modifiers.shift && !st.modifiers.ctrl && !st.modifiers.alt);
}

#[test]
fn modifier_change_unchanged_mask_posts_nothing() {
    let sc = scancodes();
    let mut st = HookState::new();
    let _ = st.apply_modifier_change(&sc, 0b101);
    let events = st.apply_modifier_change(&sc, 0b101);
    assert_eq!(events.len(), 0);
    assert!(st.modifiers.shift && !st.modifiers.ctrl && st.modifiers.alt);
}

#[test]
fn key_down_without_modifier_forwards_unchanged() {
    // Synthetic key-down for 'A' with no modifier active: forwarded as-is,
    // and the following character message is not rewritten.
    let sc = scancodes();
    let mut st = HookState::new();
    let d = st.handle_message(&sc, WM_KEYDOWN, 0x41, key_lparam(0x1E, true));
    assert_eq!(d.disposition, WndprocDisposition::Forward);
    assert!(d.forwards.is_empty());
    assert!(d.command.is_none());
    assert_eq!(st.last_key, 0);
    let c = st.handle_message(&sc, WM_CHAR, 0x61, 1);
    assert_eq!(c.disposition, WndprocDisposition::Forward);
}

#[test]
fn key_down_with_modifier_remembers_key() {
    let sc = scancodes();
    let mut st = HookState::new();
    let _ = st.apply_modifier_change(&sc, 0b001);
    let d = st.handle_message(&sc, WM_KEYDOWN, 0x41, key_lparam(0x1E, true));
    assert_eq!(d.disposition, WndprocDisposition::Forward);
    assert_eq!(st.last_key, 0x41);
}

#[test]
fn char_with_modifier_rewrites_via_translation() {
    // While shift is active, the character message asks for the platform's
    // translation of (remembered key, simulated modifier state).  Re-derive
    // the lookup exactly as the handler does and check the forwarded value.
    let sc = scancodes();
    let mut st = HookState::new();
    let _ = st.handle_message(&sc, WI_MODIFIERS, 0b001, 0);
    let _ = st.handle_message(&sc, WM_KEYDOWN, 0x41, key_lparam(0x1E, true));
    let c = st.handle_message(&sc, WM_CHAR, 0x61, 1);
    match c.disposition {
        WndprocDisposition::TranslateChar { vkey, shift, ctrl, alt } => {
            // The handler's own lookup key: remembered key + modifier bits.
            let key = rebuild_key(0x41, true, false, false);
            assert_eq!(vkey as u16, key & 0xFF);
            assert_eq!((vkey, shift, ctrl, alt), (0x41, true, false, false));
            // A tiny stand-in for the platform translation of shift+'a'.
            let translate = |vkey: u8, shift: bool| -> usize {
                if shift && vkey == 0x41 { 0x41 } else { 0x61 }
            };
            let translated = translate(vkey, shift);
            let fwd = rewritten_char_message(translated, 1);
            assert_eq!(fwd, ForwardedMessage { msg: WM_CHAR, wparam: 0x41, lparam: 1 });
        }
        other => panic!("expected a character rewrite, got {:?}", other),
    }
}

#[test]
fn char_without_modifier_is_not_rewritten() {
    let sc = scancodes();
    let mut st = HookState::new();
    let c = st.handle_message(&sc, WM_CHAR, 0x61, 1);
    assert_eq!(c.disposition, WndprocDisposition::Forward);
    assert!(c.forwards.is_empty());
}

#[test]
fn focus_loss_and_ime_are_swallowed() {
    let sc = scancodes();
    let mut st = HookState::new();
    for msg in [WM_KILLFOCUS, WM_IME_SETCONTEXT, WM_IME_NOTIFY] {
        let d = st.handle_message(&sc, msg, 5, 6);
        assert_eq!(d.disposition, WndprocDisposition::Handled { result: 0 });
        assert!(d.forwards.is_empty());
        assert!(d.command.is_none());
    }
}

#[test]
fn mouse_move_decodes_position_into_shared_memory() {
    let sc = scancodes();
    let mut st = HookState::new();
    let lparam = mouse_lparam(200, 300);
    let d = st.handle_message(&sc, WM_MOUSEMOVE, 0, lparam);
    assert_eq!(d.disposition, WndprocDisposition::Forward);
    match d.command {
        Some(HookCommand::StoreMousePosition { x, y }) => {
            assert_eq!((x, y), (200, 300));
            let mut m = MemoryManager::create_map();
            m.set_mouse_position(x, y);
            assert_eq!(m.get_mouse_position(), (200, 300));
        }
        other => panic!("expected a mouse store, got {:?}", other),
    }
}

#[test]
fn private_control_messages_are_fully_handled() {
    let sc = scancodes();
    let mut st = HookState::new();
    let c = st.handle_message(&sc, WI_CONSOLE, 0, 0);
    assert_eq!(c.command, Some(HookCommand::ToggleConsole));
    assert_eq!(c.disposition, WndprocDisposition::Handled { result: 0 });
    let r = st.handle_message(&sc, WI_REMAP, 0, 0);
    assert_eq!(r.command, Some(HookCommand::RemapSharedMemory));
    let d = st.handle_message(&sc, WI_DETACH, 0, 0);
    assert_eq!(d.command, Some(HookCommand::Detach));
    assert_eq!(d.disposition, WndprocDisposition::Handled { result: 0 });
}

#[test]
fn posted_modifier_mask_applies_intended_state() {
    // Relay-to-hook roundtrip: the mask update_modifiers posts, decoded by
    // the hook, yields exactly the state it was built from — for all eight.
    let sc = scancodes();
    for &shift in &[false, true] {
        for &ctrl in &[false, true] {
            for &alt in &[false, true] {
                let intended = ModifierState { shift, ctrl, alt };
                let other = ModifierState { shift: !shift, ctrl, alt };
                let posted = update_modifiers(0x77, intended, other).unwrap();
                let mut st = HookState::new();
                let _ = st.apply_modifier_change(&sc, posted.wparam);
                assert_eq!(st.modifiers, intended);
            }
        }
    }
}

#[test]
fn hook_commands_drive_shared_memory() {
    let mut mem = MemoryManager::create_map();
    apply_hook_command(&mut mem, HookCommand::StoreMousePosition { x: 44, y: 55 });
    assert_eq!(mem.get_mouse_position(), (44, 55));
    apply_hook_command(&mut mem, HookCommand::ToggleConsole);
    assert!(mem.is_mapped());
    apply_hook_command(&mut mem, HookCommand::Detach);
    assert!(!mem.is_mapped());
    // With the mapping gone, a mouse store is skipped, not performed.
    apply_hook_command(&mut mem, HookCommand::StoreMousePosition { x: 1, y: 2 });
    assert_eq!(mem.region.mouse_x, 44);
    assert_eq!(mem.region.mouse_y, 55);
}

#[test]
fn unrelated_messages_forward_unchanged() {
    let sc = scancodes();
    let mut st = HookState::new();
    let d = st.handle_message(&sc, WM_SETFOCUS, 1, 2);
    assert_eq!(d.disposition, WndprocDisposition::Forward);
    assert!(d.forwards.is_empty());
    assert!(d.command.is_none());
}
