use polterdesk::settings::{
    default_hotkey, default_true, CloseBehavior, HotkeyBinding, LoadOutcome, MinimizeBehavior,
    Modifier, Settings, ThemeMode, VirtualKey,
};

#[test]
fn default_settings_has_ctrl_alt_h() {
    let settings = Settings::default();
    let hotkey = settings.hotkey.as_ref().unwrap();
    assert_eq!(hotkey.modifiers, vec![Modifier::Ctrl, Modifier::Alt]);
    assert_eq!(hotkey.key, VirtualKey::Char('H'));
    assert!(!settings.start_with_windows);
    assert_eq!(settings.theme_mode, ThemeMode::Dark);
}

#[test]
fn f12_key_is_invalid() {
    let binding = HotkeyBinding {
        modifiers: vec![Modifier::Ctrl],
        key: VirtualKey::F(12),
    };
    assert!(!binding.is_valid());
}

#[test]
fn empty_modifiers_is_invalid() {
    let binding = HotkeyBinding {
        modifiers: vec![],
        key: VirtualKey::Char('H'),
    };
    assert!(!binding.is_valid());
}

#[test]
fn valid_binding_passes_validation() {
    let binding = HotkeyBinding::default();
    assert!(binding.is_valid());
}

#[test]
fn default_settings_other_fields() {
    let s = Settings::default();
    assert!(s.hide_taskbar_with_icons);
    assert!(s.taskbar_hotkey.is_none());
    assert!(!s.start_minimized);
    assert_eq!(s.minimize_behavior, MinimizeBehavior::Tray);
    assert_eq!(s.close_behavior, CloseBehavior::Tray);
    assert_eq!(s.taskbar_original_state, None);
    assert_eq!(MinimizeBehavior::default(), MinimizeBehavior::Tray);
    assert_eq!(CloseBehavior::default(), CloseBehavior::Tray);
    assert_eq!(ThemeMode::default(), ThemeMode::Dark);
}

#[test]
fn serde_defaults_for_missing_fields() {
    assert!(default_true());
    assert_eq!(default_hotkey(), Some(HotkeyBinding::default()));
}

#[test]
fn is_f12_only_for_f12() {
    assert!(VirtualKey::F(12).is_f12());
    assert!(!VirtualKey::F(11).is_f12());
    assert!(!VirtualKey::Char('C').is_f12());
}

#[test]
fn same_as_compares_modifiers_in_order_and_key() {
    let a = HotkeyBinding { modifiers: vec![Modifier::Ctrl, Modifier::Alt], key: VirtualKey::Char('H') };
    let b = HotkeyBinding { modifiers: vec![Modifier::Alt, Modifier::Ctrl], key: VirtualKey::Char('H') };
    assert!(a.same_as(&a.clone()));
    assert!(!a.same_as(&b));
    assert!(!a.same_as(&HotkeyBinding { modifiers: vec![Modifier::Ctrl, Modifier::Alt], key: VirtualKey::F(1) }));
}

#[test]
fn load_without_location_uses_defaults_without_saving() {
    let r = Settings::resolve_load(LoadOutcome::NoLocation);
    assert!(!r.save);
    assert_eq!(r.settings.hotkey, Some(HotkeyBinding::default()));
}

#[test]
fn load_failures_use_defaults_and_save() {
    for outcome in [LoadOutcome::Unreadable, LoadOutcome::Malformed] {
        let r = Settings::resolve_load(outcome);
        assert!(r.save);
        assert_eq!(r.settings.hotkey, Some(HotkeyBinding::default()));
        assert!(r.settings.hide_taskbar_with_icons);
    }
}

#[test]
fn load_reverts_invalid_hotkey_and_saves() {
    let mut parsed = Settings::default();
    parsed.hotkey = Some(HotkeyBinding { modifiers: vec![Modifier::Ctrl], key: VirtualKey::F(12) });
    parsed.start_with_windows = true;
    parsed.taskbar_original_state = Some(3);
    let r = Settings::resolve_load(LoadOutcome::Parsed(parsed));
    assert!(r.save);
    assert_eq!(r.settings.hotkey, Some(HotkeyBinding::default()));
    assert!(r.settings.start_with_windows);
    assert_eq!(r.settings.taskbar_original_state, Some(3));
}

#[test]
fn load_keeps_valid_or_missing_hotkey() {
    let mut parsed = Settings::default();
    parsed.hotkey = Some(HotkeyBinding { modifiers: vec![Modifier::Shift], key: VirtualKey::F(5) });
    let r = Settings::resolve_load(LoadOutcome::Parsed(parsed));
    assert!(!r.save);
    assert_eq!(r.settings.hotkey.unwrap().key, VirtualKey::F(5));

    let mut parsed = Settings::default();
    parsed.hotkey = None;
    let r = Settings::resolve_load(LoadOutcome::Parsed(parsed));
    assert!(!r.save);
    assert!(r.settings.hotkey.is_none());
}

#[test]
fn take_taskbar_original_clears_record() {
    let mut s = Settings::default();
    s.taskbar_original_state = Some(0);
    assert_eq!(s.take_taskbar_original(), Some(0));
    assert_eq!(s.taskbar_original_state, None);
    assert_eq!(s.take_taskbar_original(), None);
}
