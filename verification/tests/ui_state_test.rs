use polterdesk::hotkey::KeyModifiers;
use polterdesk::settings::{CloseBehavior, HotkeyBinding, MinimizeBehavior, Modifier, Settings, VirtualKey};
use polterdesk::theme::HideIconsTheme;
use polterdesk::ui_state::{HotkeyInput, SettingsForm, SettingsTab};

const CTRL: KeyModifiers = KeyModifiers { control: true, alt: false, shift: false, platform: false };
const CTRL_ALT: KeyModifiers = KeyModifiers { control: true, alt: true, shift: false, platform: false };

#[test]
fn hotkey_input_prefers_pending() {
    let mut input = HotkeyInput::new(Some(HotkeyBinding::default()));
    assert_eq!(input.display_text(), "Ctrl + Alt + H");
    input.pending = Some(HotkeyBinding { modifiers: vec![Modifier::Win], key: VirtualKey::F(2) });
    assert_eq!(input.current_binding().unwrap().key, VirtualKey::F(2));
    assert_eq!(input.display_text(), "Win + F2");
    input.conflict = true;
    input.clear();
    assert!(input.current_binding().is_none());
    assert!(!input.conflict);
    assert_eq!(input.display_text(), "Press a key combination...");
}

#[test]
fn hotkey_capture_sets_or_clears() {
    let mut form = SettingsForm::new(Settings::default());
    assert!(!form.hotkey_key_down("k", CTRL));
    form.begin_hotkey_capture();
    assert_eq!(form.hotkey_field_text(), "Press a key combination... (Esc to clear)");
    assert!(!form.hotkey_key_down("control", CTRL));
    assert!(form.capturing_hotkey);
    assert!(form.hotkey_key_down("k", CTRL));
    assert!(!form.capturing_hotkey);
    assert_eq!(form.settings.hotkey.as_ref().unwrap().key, VirtualKey::Char('K'));
    assert_eq!(form.hotkey_field_text(), "Ctrl + K");
    form.begin_hotkey_capture();
    assert!(form.hotkey_key_down("escape", KeyModifiers { control: false, alt: false, shift: false, platform: false }));
    assert!(form.settings.hotkey.is_none());
    assert_eq!(form.hotkey_field_text(), "Click to set hotkey");
}

#[test]
fn taskbar_capture_rejects_icon_hotkey() {
    let mut form = SettingsForm::new(Settings::default());
    form.begin_taskbar_hotkey_capture();
    assert!(!form.taskbar_hotkey_key_down("h", CTRL_ALT));
    assert!(form.taskbar_hotkey_conflict);
    assert!(!form.capturing_taskbar_hotkey);
    assert!(form.settings.taskbar_hotkey.is_none());
    assert_eq!(form.taskbar_hotkey_field_text(), "Click to set taskbar hotkey");
    form.begin_taskbar_hotkey_capture();
    assert!(!form.taskbar_hotkey_conflict);
    assert!(form.taskbar_hotkey_key_down("t", CTRL_ALT));
    assert_eq!(form.taskbar_hotkey_field_text(), "Ctrl + Alt + T");
    form.begin_taskbar_hotkey_capture();
    assert!(form.taskbar_hotkey_key_down("escape", CTRL));
    assert!(form.settings.taskbar_hotkey.is_none());
}

#[test]
fn toggles_and_choices() {
    let mut form = SettingsForm::new(Settings::default());
    assert_eq!(form.tip_text(), "Double-click on your desktop to toggle visibility of icons and taskbar.");
    form.toggle_hide_taskbar_with_icons();
    assert!(!form.settings.hide_taskbar_with_icons);
    assert_eq!(form.tip_text(), "Double-click on your desktop to toggle visibility of icons.");
    form.toggle_start_with_windows();
    assert!(form.settings.start_with_windows);
    form.toggle_start_minimized();
    assert!(form.settings.start_minimized);
    assert_eq!(form.minimize_index(), 1);
    form.set_minimize_index(0);
    assert_eq!(form.settings.minimize_behavior, MinimizeBehavior::Taskbar);
    assert_eq!(form.minimize_index(), 0);
    assert_eq!(form.close_index(), 1);
    form.set_close_index(0);
    assert_eq!(form.settings.close_behavior, CloseBehavior::Exit);
    form.set_close_index(7);
    assert_eq!(form.settings.close_behavior, CloseBehavior::Tray);
}

#[test]
fn tabs() {
    let mut form = SettingsForm::new(Settings::default());
    assert_eq!(form.active_tab_index(), 0);
    assert!(form.select_tab(2));
    assert_eq!(form.active_tab, SettingsTab::System);
    assert_eq!(form.active_tab_index(), 2);
    assert!(!form.select_tab(4));
    assert_eq!(form.active_tab, SettingsTab::System);
}

#[test]
fn theme_colors() {
    assert_eq!(HideIconsTheme::background(), 0x181825);
    assert_eq!(HideIconsTheme::surface(), 0x302d41);
    assert_eq!(HideIconsTheme::border(), 0x313244);
    assert_eq!(HideIconsTheme::primary(), 0x89b4fa);
    assert_eq!(HideIconsTheme::primary_hover(), 0x74c7ec);
    assert_eq!(HideIconsTheme::text_primary(), 0xcdd6f4);
    assert_eq!(HideIconsTheme::text_secondary(), 0x6c7086);
}
