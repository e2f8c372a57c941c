use waspinput::hook::HookRegistry;

#[test]
fn install_saves_original_entry_point() {
    let mut reg = HookRegistry::new();
    assert!(!reg.is_installed());
    assert!(reg.install(0x1234));
    assert!(reg.is_installed());
}

#[test]
fn second_install_fails_and_preserves_saved_pointer() {
    // Installing twice leaves exactly one hook: the second call reports
    // failure and the saved original entry point is uncorrupted.
    let mut reg = HookRegistry::new();
    assert!(reg.install(0x1234));
    assert!(!reg.install(0x9999));
    assert!(reg.is_installed());
    assert_eq!(reg.uninstall(), Some(0x1234));
    assert!(!reg.is_installed());
}

#[test]
fn install_refuses_null_entry_point() {
    let mut reg = HookRegistry::new();
    assert!(!reg.install(0));
    assert!(!reg.is_installed());
}

#[test]
fn uninstall_without_install_fails_without_effect() {
    let mut reg = HookRegistry::new();
    assert_eq!(reg.uninstall(), None);
    assert!(!reg.is_installed());
    // And again: still a clean failure.
    assert_eq!(reg.uninstall(), None);
}

#[test]
fn reinstall_after_uninstall_succeeds() {
    let mut reg = HookRegistry::new();
    assert!(reg.install(0x1111));
    assert_eq!(reg.uninstall(), Some(0x1111));
    assert!(reg.install(0x2222));
    assert_eq!(reg.uninstall(), Some(0x2222));
}
