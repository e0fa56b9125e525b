//! Startup state detection: the app derives its world-model from the actual
//! OS state. `resolve_initial_state` is the pure decision core.

use polterdesk::app_state::{detect_initial_state, resolve_initial_state, ToggleState};
use polterdesk::settings::Settings;

#[test]
fn icons_visible_taskbar_normal_no_record_is_visible() {
    let s = resolve_initial_state(true, false, None);
    assert_eq!(s.toggle_state, ToggleState::Visible);
    assert!(!s.taskbar_hidden);
    assert_eq!(s.taskbar_original_state, None);
    assert!(!s.clear_persisted_original);
}

#[test]
fn icons_hidden_is_adopted_as_hidden() {
    let s = resolve_initial_state(false, false, None);
    assert_eq!(s.toggle_state, ToggleState::Hidden);
    assert!(!s.taskbar_hidden);
}

#[test]
fn taskbar_autohide_without_record_is_user_preference_not_claimed() {
    let s = resolve_initial_state(true, true, None);
    assert_eq!(s.toggle_state, ToggleState::Visible);
    assert!(!s.taskbar_hidden);
    assert_eq!(s.taskbar_original_state, None);
    assert!(!s.clear_persisted_original);
}

#[test]
fn we_still_control_taskbar_when_autohide_persisted_and_active() {
    let s = resolve_initial_state(false, true, Some(2));
    assert_eq!(s.toggle_state, ToggleState::Hidden);
    assert!(s.taskbar_hidden);
    assert_eq!(s.taskbar_original_state, Some(2));
    assert!(!s.clear_persisted_original);
}

#[test]
fn taskbar_record_dropped_when_autohide_turned_off_externally() {
    let s = resolve_initial_state(true, false, Some(2));
    assert_eq!(s.toggle_state, ToggleState::Visible);
    assert!(!s.taskbar_hidden);
    assert_eq!(s.taskbar_original_state, None);
    assert!(s.clear_persisted_original);
}

#[test]
fn original_state_zero_is_preserved_when_still_controlling() {
    let s = resolve_initial_state(false, true, Some(0));
    assert!(s.taskbar_hidden);
    assert_eq!(s.taskbar_original_state, Some(0));
    assert!(!s.clear_persisted_original);
}

#[test]
fn icons_and_taskbar_resolved_independently() {
    let s = resolve_initial_state(true, true, Some(2));
    assert_eq!(s.toggle_state, ToggleState::Visible);
    assert!(s.taskbar_hidden);
    assert_eq!(s.taskbar_original_state, Some(2));
}

#[test]
fn detect_clears_stale_record_from_settings() {
    let mut settings = Settings::default();
    settings.taskbar_original_state = Some(2);
    let (state, listview) = detect_initial_state(&mut settings, Some((77, false)), false);
    assert_eq!(state.toggle_state, ToggleState::Hidden);
    assert!(state.clear_persisted_original);
    assert_eq!(settings.taskbar_original_state, None);
    assert_eq!(listview, Some(77));
}

#[test]
fn detect_without_listview_assumes_visible_and_keeps_live_record() {
    let mut settings = Settings::default();
    settings.taskbar_original_state = Some(0);
    let (state, listview) = detect_initial_state(&mut settings, None, true);
    assert_eq!(state.toggle_state, ToggleState::Visible);
    assert!(state.taskbar_hidden);
    assert_eq!(settings.taskbar_original_state, Some(0));
    assert_eq!(listview, None);
}
