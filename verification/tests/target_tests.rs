use waspinput::messages::{WM_LBUTTONDOWN, WM_LBUTTONUP, WM_MBUTTONDOWN, WM_RBUTTONDOWN};
use waspinput::shm::IMAGE_DATA_SIZE;
use waspinput::target::{image_data_offset, SimbaTarget};

#[test]
fn new_target_has_nothing_pressed() {
    let t = SimbaTarget::new(42, 0x77);
    assert_eq!(t.pid, 42);
    assert_eq!(t.hwnd, 0x77);
    assert!(!t.mouse_pressed(1));
    assert!(!t.mouse_pressed(3));
    assert!(!t.key_pressed(0x41));
}

#[test]
fn mouse_down_posts_and_records() {
    let mut t = SimbaTarget::new(1, 0x77);
    let m = t.mouse_down(1, 10, 20).unwrap();
    assert_eq!(m.msg, WM_LBUTTONDOWN);
    assert_eq!(m.hwnd, 0x77);
    assert_eq!(m.lparam, (20u64 << 16) | 10);
    assert!(t.mouse_pressed(1));
    let u = t.mouse_up(1, 10, 20).unwrap();
    assert_eq!(u.msg, WM_LBUTTONUP);
    assert!(!t.mouse_pressed(1));
}

#[test]
fn middle_button_aliases_share_one_slot() {
    // Codes 2, 4 and 5 are all treated as the middle button.
    let mut t = SimbaTarget::new(1, 0x77);
    let m = t.mouse_down(4, 1, 2).unwrap();
    assert_eq!(m.msg, WM_MBUTTONDOWN);
    assert!(t.mouse_pressed(2));
    assert!(t.mouse_pressed(4));
    assert!(t.mouse_pressed(5));
    assert!(!t.mouse_pressed(1));
}

#[test]
fn right_button_uses_right_messages() {
    let mut t = SimbaTarget::new(1, 0x77);
    let m = t.mouse_down(3, 5, 5).unwrap();
    assert_eq!(m.msg, WM_RBUTTONDOWN);
    assert!(t.mouse_pressed(3));
}

#[test]
fn unknown_button_posts_nothing_and_records_nothing() {
    let mut t = SimbaTarget::new(1, 0x77);
    assert!(t.mouse_down(9, 1, 1).is_none());
    assert!(!t.mouse_pressed(9));
    assert!(!t.mouse_pressed(1));
    assert!(t.mouse_up(0, 1, 1).is_none());
}

#[test]
fn key_state_tracks_down_and_up() {
    let mut t = SimbaTarget::new(1, 0x77);
    let d = t.key_down(0x41, 0x1E);
    assert_eq!(d.wparam, 0x41);
    assert!(t.key_pressed(0x41));
    assert!(!t.key_pressed(0x42));
    let u = t.key_up(0x41, 0x1E);
    assert_eq!(u.lparam, 0xC01E0001);
    assert!(!t.key_pressed(0x41));
}

#[test]
fn image_offset_of_pixel() {
    // Pixel (1, 2) in a 10 x 5 frame: (2 * 10 + 1) * 4 bytes in.
    assert_eq!(image_data_offset(1, 2, 10, 5), Some(84));
    assert_eq!(image_data_offset(0, 0, 10, 5), Some(0));
}

#[test]
fn image_offset_rejects_out_of_frame_pixels() {
    assert_eq!(image_data_offset(10, 0, 10, 5), None);
    assert_eq!(image_data_offset(0, 5, 10, 5), None);
    assert_eq!(image_data_offset(-1, 0, 10, 5), None);
    assert_eq!(image_data_offset(0, -1, 10, 5), None);
    assert_eq!(image_data_offset(0, 0, 0, 5), None);
}

#[test]
fn image_offset_rejects_frames_over_capacity() {
    // 3000 x 3000 x 4 exceeds the fixed buffer.
    assert!(3000 * 3000 * 4 > IMAGE_DATA_SIZE);
    assert_eq!(image_data_offset(0, 0, 3000, 3000), None);
    // The maximum supported resolution is still addressable.
    assert!(image_data_offset(2879, 2879, 2880, 2880).is_some());
}
