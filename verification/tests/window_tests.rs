use waspinput::window::{
    disable_input, enable_input, get_window_size, is_input_enabled, message2string, toggle_input,
    WindowControl, WindowRect,
};

#[test]
fn window_size_from_rectangle() {
    let rect = WindowRect { left: 100, top: 50, right: 900, bottom: 650 };
    assert_eq!(get_window_size(Some(rect)), Some((800, 600)));
}

#[test]
fn window_size_none_when_query_failed() {
    assert_eq!(get_window_size(None), None);
}

#[test]
fn input_gate_toggles() {
    let mut w = WindowControl { hwnd: 0x77, enabled: true };
    assert!(is_input_enabled(&w));
    // Disabling reports the window was not previously disabled.
    assert!(!disable_input(&mut w));
    assert!(!is_input_enabled(&w));
    // Enabling reports the window was previously disabled.
    assert!(enable_input(&mut w));
    assert!(is_input_enabled(&w));
    assert!(!toggle_input(&mut w, false));
    assert!(!w.enabled);
    assert_eq!(w.hwnd, 0x77);
}

#[test]
fn message_names_for_logging() {
    assert_eq!(message2string(0x0100), "WM_KEYDOWN");
    assert_eq!(message2string(0x0102), "WM_CHAR");
    assert_eq!(message2string(0x0200), "WM_MOUSEMOVE");
    assert_eq!(message2string(0x0000), "WM_NULL");
    assert_eq!(message2string(0x9999), "UNKNOWN");
}
