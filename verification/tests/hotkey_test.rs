use polterdesk::hotkey::{
    format_hotkey, hotkey_command, HotkeyCommand, HOTKEY_ID, TASKBAR_HOTKEY_ID, is_conflict_code, make_mods, parse_keystroke, vk_code, KeyModifiers, MOD_ALT,
    MOD_CONTROL, MOD_NOREPEAT, MOD_SHIFT, MOD_WIN,
};
use polterdesk::settings::{HotkeyBinding, Modifier, Settings, VirtualKey};

fn mods(control: bool, alt: bool, shift: bool, platform: bool) -> KeyModifiers {
    KeyModifiers { control, alt, shift, platform }
}

#[test]
fn make_mods_sets_norepeat_and_each_modifier() {
    let b = HotkeyBinding { modifiers: vec![Modifier::Ctrl, Modifier::Alt], key: VirtualKey::Char('H') };
    assert_eq!(make_mods(&b), MOD_NOREPEAT | MOD_CONTROL | MOD_ALT);
    let b = HotkeyBinding { modifiers: vec![Modifier::Shift, Modifier::Win], key: VirtualKey::F(1) };
    assert_eq!(make_mods(&b), 0x400C);
    assert_eq!(make_mods(&b), MOD_NOREPEAT | MOD_SHIFT | MOD_WIN);
    let b = HotkeyBinding { modifiers: vec![], key: VirtualKey::F(1) };
    assert_eq!(make_mods(&b), MOD_NOREPEAT);
}

#[test]
fn vk_codes() {
    assert_eq!(vk_code(&VirtualKey::Char('H')), 0x48);
    assert_eq!(vk_code(&VirtualKey::Char('h')), 0x48);
    assert_eq!(vk_code(&VirtualKey::Char('5')), 0x35);
    assert_eq!(vk_code(&VirtualKey::F(1)), 0x70);
    assert_eq!(vk_code(&VirtualKey::F(24)), 0x87);
}

#[test]
fn conflict_code_is_hotkey_already_registered() {
    assert!(is_conflict_code(0x80070581u32 as i32));
    assert!(!is_conflict_code(0));
    assert!(!is_conflict_code(0x80070005u32 as i32));
}

#[test]
fn parse_letter_is_uppercased() {
    let b = parse_keystroke("d", mods(true, false, true, false)).unwrap();
    assert_eq!(b.modifiers, vec![Modifier::Ctrl, Modifier::Shift]);
    assert_eq!(b.key, VirtualKey::Char('D'));
}

#[test]
fn parse_digit_and_function_keys() {
    assert_eq!(parse_keystroke("7", mods(false, true, false, false)).unwrap().key, VirtualKey::Char('7'));
    assert_eq!(parse_keystroke("f5", mods(false, false, false, true)).unwrap().key, VirtualKey::F(5));
    assert_eq!(parse_keystroke("f24", mods(true, true, true, true)).unwrap().modifiers.len(), 4);
    assert_eq!(parse_keystroke("f+7", mods(true, false, false, false)).unwrap().key, VirtualKey::F(7));
    assert_eq!(parse_keystroke("f07", mods(true, false, false, false)).unwrap().key, VirtualKey::F(7));
}

#[test]
fn parse_rejects_invalid_keystrokes() {
    let ctrl = mods(true, false, false, false);
    assert!(parse_keystroke("h", mods(false, false, false, false)).is_none());
    assert!(parse_keystroke("control", ctrl).is_none());
    assert!(parse_keystroke("fn", ctrl).is_none());
    assert!(parse_keystroke("f12", ctrl).is_none());
    assert!(parse_keystroke("f25", ctrl).is_none());
    assert!(parse_keystroke("f0", ctrl).is_none());
    assert!(parse_keystroke("f", ctrl).unwrap().key == VirtualKey::Char('F'));
    assert!(parse_keystroke("f256", ctrl).is_none());
    assert!(parse_keystroke("f+", ctrl).is_none());
    assert!(parse_keystroke("-", ctrl).is_none());
    assert!(parse_keystroke("space", ctrl).is_none());
    assert!(parse_keystroke("", ctrl).is_none());
    assert!(parse_keystroke("é", ctrl).is_none());
}

#[test]
fn format_hotkey_joins_with_plus() {
    assert_eq!(format_hotkey(&HotkeyBinding::default()), "Ctrl + Alt + H");
    let b = HotkeyBinding { modifiers: vec![Modifier::Shift, Modifier::Win], key: VirtualKey::F(11) };
    assert_eq!(format_hotkey(&b), "Shift + Win + F11");
    let b = HotkeyBinding { modifiers: vec![Modifier::Ctrl], key: VirtualKey::Char('q') };
    assert_eq!(format_hotkey(&b), "Ctrl + Q");
    let b = HotkeyBinding { modifiers: vec![], key: VirtualKey::F(255) };
    assert_eq!(format_hotkey(&b), "F255");
}

#[test]
fn taskbar_hotkey_only_in_separate_mode() {
    let mut s = Settings::default();
    s.taskbar_hotkey = Some(HotkeyBinding { modifiers: vec![Modifier::Alt], key: VirtualKey::Char('T') });
    assert!(s.active_taskbar_hotkey().is_none());
    s.hide_taskbar_with_icons = false;
    assert_eq!(s.active_taskbar_hotkey().unwrap().key, VirtualKey::Char('T'));
    s.taskbar_hotkey = None;
    assert!(s.active_taskbar_hotkey().is_none());
}

#[test]
fn hotkey_ids_dispatch() {
    assert_eq!(hotkey_command(TASKBAR_HOTKEY_ID), HotkeyCommand::ToggleTaskbar);
    assert_eq!(hotkey_command(HOTKEY_ID), HotkeyCommand::ToggleIcons);
    assert_eq!(hotkey_command(7), HotkeyCommand::ToggleIcons);
}

#[test]
fn snapshot_clone_keeps_positions() {
    let s = polterdesk::app_state::DesktopSnapshot {
        item_count: 1,
        positions: vec![polterdesk::app_state::IconPosition { index: 2, point: (3, 4), bounds: (0, 0, 5, 5) }],
        captured_at: std::time::Instant::now(),
    };
    let c = s.clone();
    assert_eq!(c.item_count, 1);
    assert_eq!(c.positions[0].index, 2);
    assert_eq!(c.positions[0].point, (3, 4));
    assert_eq!(c.captured_at, s.captured_at);
}
