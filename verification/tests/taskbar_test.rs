use polterdesk::taskbar::{autohide_active, enable_flags, restore_flags, ABS_ALWAYSONTOP};

#[test]
fn restore_flags_always_keep_on_top() {
    assert_eq!(restore_flags(None), ABS_ALWAYSONTOP);
    assert_eq!(restore_flags(Some(0)), ABS_ALWAYSONTOP);
    assert_eq!(restore_flags(Some(1)), 3);
    assert_eq!(restore_flags(Some(2)), 2);
    assert_eq!(restore_flags(Some(0x10)), 0x12);
}

#[test]
fn enable_and_autohide_bits() {
    assert_eq!(enable_flags(), 3);
    assert!(autohide_active(1));
    assert!(autohide_active(3));
    assert!(!autohide_active(2));
    assert!(!autohide_active(0));
}
