use polterdesk::click::{is_desktop_class, is_listview_class, ClickTracker, DoubleClickLimits};

const LIMITS: DoubleClickLimits = DoubleClickLimits { time_ms: 500, cx: 4, cy: 4 };

fn units(s: &str) -> Vec<u16> {
    s.encode_utf16().collect()
}

#[test]
fn first_click_is_never_double() {
    let mut t = ClickTracker::new();
    assert!(!t.register_click((10, 10), 0, LIMITS));
    assert!(t.has_previous);
}

#[test]
fn close_quick_second_click_is_double_and_resets() {
    let mut t = ClickTracker::new();
    t.register_click((10, 10), 0, LIMITS);
    assert!(t.register_click((12, 7), 100, LIMITS));
    assert!(!t.has_previous);
    // A third click starts a new pair.
    assert!(!t.register_click((12, 7), 50, LIMITS));
}

#[test]
fn slow_or_far_second_click_is_not_double() {
    let mut t = ClickTracker::new();
    t.register_click((10, 10), 0, LIMITS);
    assert!(!t.register_click((10, 10), 500, LIMITS));
    assert!(!t.register_click((15, 10), 10, LIMITS));
    assert!(t.register_click((15, 14), 10, LIMITS));
}

#[test]
fn desktop_classes() {
    for name in ["Progman", "WorkerW", "SysListView32", "SHELLDLL_DefView"] {
        assert!(is_desktop_class(&units(name)));
    }
    assert!(!is_desktop_class(&units("Notepad")));
    assert!(!is_desktop_class(&units("progman")));
    assert!(!is_desktop_class(&units("")));
    assert!(is_listview_class(&units("SysListView32")));
    assert!(!is_listview_class(&units("SysListView321")));
    assert!(!is_listview_class(&units("WorkerW")));
}
