//! The tray icon: its context menu, its tooltip and the messages it sends.

use vstd::prelude::*;

use crate::app_state::ToggleState;

verus! {

/// Menu command: open the settings window.
pub const IDM_OPEN: u32 = 1000;
/// Menu command: toggle the icons.
pub const IDM_TOGGLE: u32 = 1001;
/// Menu command: toggle start with Windows.
pub const IDM_STARTUP: u32 = 1003;
/// Menu command: exit.
pub const IDM_CLOSE: u32 = 1004;
/// Menu command: toggle the taskbar.
pub const IDM_TOGGLE_TASKBAR: u32 = 1005;

/// Identifier of the tray icon.
pub const TRAY_ICON_ID: u32 = 1;
/// Callback message of the tray icon (WM_APP + 1).
pub const WM_TRAYICON: u32 = 0x0401;
/// Message that asks the background thread to re-register the hotkeys
/// (WM_APP + 2).
pub const WM_REREGISTER_HOTKEY: u32 = 0x0402;

/// The text of a menu item.
#[derive(Debug, Clone, Copy, PartialEq, Eq, Structural)]
pub enum MenuLabel {
    Open,
    HideIcons,
    ShowIcons,
    HideTaskbar,
    ShowTaskbar,
    StartWithWindows,
    Close,
}

/// The displayed text of a label.
pub open spec fn label_text(l: MenuLabel) -> Seq<char> {
    match l {
        MenuLabel::Open => "Open"@,
        MenuLabel::HideIcons => "Hide Icons"@,
        MenuLabel::ShowIcons => "Show Icons"@,
        MenuLabel::HideTaskbar => "Hide Taskbar"@,
        MenuLabel::ShowTaskbar => "Show Taskbar"@,
        MenuLabel::StartWithWindows => "Start with Windows"@,
        MenuLabel::Close => "Close"@,
    }
}

impl MenuLabel {
    /// The displayed text.
    pub fn text(&self) -> (r: &'static str)
        ensures
            r@ == label_text(*self),
    {
        match self {
            MenuLabel::Open => "Open",
            MenuLabel::HideIcons => "Hide Icons",
            MenuLabel::ShowIcons => "Show Icons",
            MenuLabel::HideTaskbar => "Hide Taskbar",
            MenuLabel::ShowTaskbar => "Show Taskbar",
            MenuLabel::StartWithWindows => "Start with Windows",
            MenuLabel::Close => "Close",
        }
    }
}

/// One entry of the context menu: a command item, plain or with a check
/// mark state, or a separator.
#[derive(Debug, Clone, Copy, PartialEq, Eq, Structural)]
pub enum MenuEntry {
    Item { id: u32, label: MenuLabel, checked: Option<bool> },
    Separator,
}

/// The context menu: Open, the icon toggle, the taskbar toggle (in separate
/// mode only), a separator, Start with Windows with its check mark, a
/// separator and Close.
pub open spec fn menu_spec(
    toggle_state: ToggleState,
    start_with_windows: bool,
    show_taskbar_toggle: bool,
    taskbar_hidden: bool,
) -> Seq<MenuEntry> {
    seq![
        MenuEntry::Item { id: IDM_OPEN, label: MenuLabel::Open, checked: None },
        MenuEntry::Item {
            id: IDM_TOGGLE,
            label: if toggle_state == ToggleState::Visible {
                MenuLabel::HideIcons
            } else {
                MenuLabel::ShowIcons
            },
            checked: None,
        },
    ] + (if show_taskbar_toggle {
        seq![
            MenuEntry::Item {
                id: IDM_TOGGLE_TASKBAR,
                label: if taskbar_hidden { MenuLabel::ShowTaskbar } else { MenuLabel::HideTaskbar },
                checked: None,
            },
        ]
    } else {
        Seq::empty()
    }) + seq![
        MenuEntry::Separator,
        MenuEntry::Item {
            id: IDM_STARTUP,
            label: MenuLabel::StartWithWindows,
            checked: Some(start_with_windows),
        },
        MenuEntry::Separator,
        MenuEntry::Item { id: IDM_CLOSE, label: MenuLabel::Close, checked: None },
    ]
}

/// The entries of the tray context menu for the current state.
pub fn context_menu(
    toggle_state: ToggleState,
    start_with_windows: bool,
    show_taskbar_toggle: bool,
    taskbar_hidden: bool,
) -> (r: Vec<MenuEntry>)
    ensures
        r@ == menu_spec(toggle_state, start_with_windows, show_taskbar_toggle, taskbar_hidden),
{
    let mut menu: Vec<MenuEntry> = Vec::new();
    menu.push(MenuEntry::Item { id: IDM_OPEN, label: MenuLabel::Open, checked: None });
    let toggle_label = match toggle_state {
        ToggleState::Visible => MenuLabel::HideIcons,
        ToggleState::Hidden => MenuLabel::ShowIcons,
    };
    menu.push(MenuEntry::Item { id: IDM_TOGGLE, label: toggle_label, checked: None });
    if show_taskbar_toggle {
        let taskbar_label = if taskbar_hidden {
            MenuLabel::ShowTaskbar
        } else {
            MenuLabel::HideTaskbar
        };
        menu.push(MenuEntry::Item { id: IDM_TOGGLE_TASKBAR, label: taskbar_label, checked: None });
    }
    menu.push(MenuEntry::Separator);
    menu.push(
        MenuEntry::Item {
            id: IDM_STARTUP,
            label: MenuLabel::StartWithWindows,
            checked: Some(start_with_windows),
        },
    );
    menu.push(MenuEntry::Separator);
    menu.push(MenuEntry::Item { id: IDM_CLOSE, label: MenuLabel::Close, checked: None });
    assert(menu@ =~= menu_spec(toggle_state, start_with_windows, show_taskbar_toggle, taskbar_hidden));
    menu
}

/// A command chosen from the context menu.
#[derive(Debug, Clone, Copy, PartialEq, Eq, Structural)]
pub enum MenuCommand {
    Open,
    Toggle,
    ToggleTaskbar,
    Startup,
    Close,
}

/// The menu command of a `WM_COMMAND` wParam (its low word), if it is one
/// of the menu's.
pub fn menu_command(wparam: usize) -> (r: Option<MenuCommand>)
    ensures
        ({
            let id = wparam % 65536;
            r == if id == IDM_OPEN {
                Some(MenuCommand::Open)
            } else if id == IDM_TOGGLE {
                Some(MenuCommand::Toggle)
            } else if id == IDM_TOGGLE_TASKBAR {
                Some(MenuCommand::ToggleTaskbar)
            } else if id == IDM_STARTUP {
                Some(MenuCommand::Startup)
            } else if id == IDM_CLOSE {
                Some(MenuCommand::Close)
            } else {
                None
            }
        }),
{
    assert(wparam & 0xFFFF == wparam % 65536) by (bit_vector);
    let id = (wparam & 0xFFFF) as u32;
    if id == IDM_OPEN {
        Some(MenuCommand::Open)
    } else if id == IDM_TOGGLE {
        Some(MenuCommand::Toggle)
    } else if id == IDM_TOGGLE_TASKBAR {
        Some(MenuCommand::ToggleTaskbar)
    } else if id == IDM_STARTUP {
        Some(MenuCommand::Startup)
    } else if id == IDM_CLOSE {
        Some(MenuCommand::Close)
    } else {
        None
    }
}

/// What a tray icon callback asks for.
#[derive(Debug, Clone, Copy, PartialEq, Eq, Structural)]
pub enum TrayAction {
    /// Right button released: show the context menu.
    ShowMenu,
    /// Left button released or double-clicked: open the settings window.
    OpenSettings,
    Ignore,
}

/// The action of a tray icon callback, from the mouse message in the low
/// word of its lParam.
pub fn tray_action(lparam: isize) -> (r: TrayAction)
    ensures
        ({
            let event = (lparam & 0xFFFF) as int;
            r == if event == 0x0205 {
                TrayAction::ShowMenu
            } else if event == 0x0202 || event == 0x0203 {
                TrayAction::OpenSettings
            } else {
                TrayAction::Ignore
            }
        }),
{
    assert(0 <= lparam & 0xFFFF <= 0xFFFF) by (bit_vector);
    let event = (lparam & 0xFFFF) as u32;
    if event == 0x0205 {
        TrayAction::ShowMenu
    } else if event == 0x0202 || event == 0x0203 {
        TrayAction::OpenSettings
    } else {
        TrayAction::Ignore
    }
}

/// The tooltip of the tray icon before the first toggle.
pub fn initial_tooltip() -> (r: &'static str)
    ensures
        r@ == "Polterdesk \u{2014} Icons visible"@,
{
    "Polterdesk \u{2014} Icons visible"
}

/// The tooltip text for the current icon and taskbar state.
pub open spec fn tooltip_spec(icons_visible: bool, taskbar_hidden: bool) -> Seq<char> {
    "Polterdesk \u{2014} Icons: "@ + (if icons_visible { "Visible"@ } else { "Hidden"@ })
        + " | Taskbar: "@ + (if taskbar_hidden { "Auto-hide"@ } else { "Normal"@ })
}

/// The tray tooltip: "Polterdesk — Icons: Visible | Taskbar: Normal" and
/// the like.
pub fn tooltip_text(icons_visible: bool, taskbar_hidden: bool) -> (r: String)
    ensures
        r@ == tooltip_spec(icons_visible, taskbar_hidden),
{
    let mut s = String::from_str("Polterdesk \u{2014} Icons: ");
    s.append(if icons_visible { "Visible" } else { "Hidden" });
    s.append(" | Taskbar: ");
    s.append(if taskbar_hidden { "Auto-hide" } else { "Normal" });
    s
}

/// Whether `s` ends with `suffix`.
pub open spec fn ends_with(s: Seq<char>, suffix: Seq<char>) -> bool {
    s.len() >= suffix.len() && s.subrange(s.len() - suffix.len(), s.len() as int) == suffix
}

/// Whether `s` begins with `prefix`.
pub open spec fn starts_with(s: Seq<char>, prefix: Seq<char>) -> bool {
    s.len() >= prefix.len() && s.subrange(0, prefix.len() as int) == prefix
}

/// The taskbar part of the tooltip depends only on whether the taskbar is
/// app-controlled, and the icon part only on whether the icons are visible:
/// the tooltip ends with " | Taskbar: Auto-hide" exactly when the taskbar
/// is hidden and with " | Taskbar: Normal" exactly when it is not, and it
/// begins with "Polterdesk — Icons: Visible" exactly when the icons are
/// visible and with "Polterdesk — Icons: Hidden" exactly when they are not.
pub proof fn lemma_tooltip_parts(icons_visible: bool, taskbar_hidden: bool)
    ensures
        ends_with(tooltip_spec(icons_visible, taskbar_hidden), " | Taskbar: Auto-hide"@)
            == taskbar_hidden,
        ends_with(tooltip_spec(icons_visible, taskbar_hidden), " | Taskbar: Normal"@)
            == !taskbar_hidden,
        starts_with(tooltip_spec(icons_visible, taskbar_hidden), "Polterdesk \u{2014} Icons: Visible"@)
            == icons_visible,
        starts_with(tooltip_spec(icons_visible, taskbar_hidden), "Polterdesk \u{2014} Icons: Hidden"@)
            == !icons_visible,
{
    reveal_strlit("Polterdesk \u{2014} Icons: ");
    reveal_strlit("Visible");
    reveal_strlit("Hidden");
    reveal_strlit(" | Taskbar: ");
    reveal_strlit("Auto-hide");
    reveal_strlit("Normal");
    reveal_strlit(" | Taskbar: Auto-hide");
    reveal_strlit(" | Taskbar: Normal");
    reveal_strlit("Polterdesk \u{2014} Icons: Visible");
    reveal_strlit("Polterdesk \u{2014} Icons: Hidden");
    let s = tooltip_spec(icons_visible, taskbar_hidden);
    let n = s.len() as int;
    if taskbar_hidden {
        assert(s.subrange(n - 21, n) =~= " | Taskbar: Auto-hide"@);
        assert(s[n - 1] == 'e');
        assert(" | Taskbar: Normal"@[17] == 'l');
        assert(s.subrange(n - 18, n)[17] == s[n - 1]);
    } else {
        assert(s.subrange(n - 18, n) =~= " | Taskbar: Normal"@);
        assert(s[n - 1] == 'l');
        assert(" | Taskbar: Auto-hide"@[20] == 'e');
        if s.len() >= 21 {
            assert(s.subrange(n - 21, n)[20] == s[n - 1]);
        }
    }
    if icons_visible {
        assert(s.subrange(0, 27) =~= "Polterdesk \u{2014} Icons: Visible"@);
        assert(s[20] == 'V');
        assert(s.subrange(0, 26)[20] == s[20]);
        assert("Polterdesk \u{2014} Icons: Hidden"@[20] == 'H');
    } else {
        assert(s.subrange(0, 26) =~= "Polterdesk \u{2014} Icons: Hidden"@);
        assert(s[20] == 'H');
        assert(s.subrange(0, 27)[20] == s[20]);
        assert("Polterdesk \u{2014} Icons: Visible"@[20] == 'V');
    }
}

/// The menu always begins with Open (1000) and ends with Close (1004); its
/// icon item (1001) offers to hide the icons exactly when they are visible;
/// a taskbar item (1005) appears exactly when asked for, offering to show
/// the taskbar exactly when it is hidden; the Start with Windows item
/// (1003) is checked exactly when starting with Windows is on.
pub proof fn lemma_menu_reflects_state(
    toggle_state: ToggleState,
    start_with_windows: bool,
    show_taskbar_toggle: bool,
    taskbar_hidden: bool,
)
    ensures
        ({
            let m = menu_spec(toggle_state, start_with_windows, show_taskbar_toggle, taskbar_hidden);
            let k: int = if show_taskbar_toggle { 1 } else { 0 };
            &&& m.len() == 6 + k
            &&& m[0] == MenuEntry::Item { id: 1000u32, label: MenuLabel::Open, checked: None }
            &&& m[1] matches MenuEntry::Item { id, label, checked } && id == 1001u32
                && checked is None && (label == MenuLabel::HideIcons) == (toggle_state
                == ToggleState::Visible) && (label == MenuLabel::ShowIcons) == (toggle_state
                == ToggleState::Hidden)
            &&& show_taskbar_toggle ==> (m[2] matches MenuEntry::Item { id, label, checked }
                && id == 1005u32 && checked is None && (label == MenuLabel::ShowTaskbar)
                == taskbar_hidden && (label == MenuLabel::HideTaskbar) == !taskbar_hidden)
            &&& forall|j: int| 0 <= j < m.len() ==> !(#[trigger] m[j] matches MenuEntry::Item {
                id,
                ..
            } && id == 1005u32) || show_taskbar_toggle
            &&& m[2 + k] == MenuEntry::Separator
            &&& m[3 + k] == MenuEntry::Item {
                id: 1003u32,
                label: MenuLabel::StartWithWindows,
                checked: Some(start_with_windows),
            }
            &&& m[4 + k] == MenuEntry::Separator
            &&& m[5 + k] == MenuEntry::Item { id: 1004u32, label: MenuLabel::Close, checked: None }
        }),
{
}

} // verus!
