//! State of the settings window and its hotkey fields, apart from drawing:
//! what a click or a keystroke changes, and the texts shown.

use vstd::prelude::*;
use vstd::string::StringSliceAdditionalSpecFns;

use crate::hotkey::{format_hotkey, hotkey_text, keystroke_binding, parse_keystroke, KeyModifiers};
use crate::settings::{opt_binding, CloseBehavior, HotkeyBinding, MinimizeBehavior, Settings};

verus! {

/// A hotkey field: the saved binding, one being entered, and flags.
pub struct HotkeyInput {
    pub binding: Option<HotkeyBinding>,
    pub pending: Option<HotkeyBinding>,
    pub conflict: bool,
    pub focused: bool,
}

/// The placeholder of an empty hotkey field.
pub open spec fn placeholder_text() -> Seq<char> {
    "Press a key combination..."@
}

impl HotkeyInput {
    pub fn new(binding: Option<HotkeyBinding>) -> (r: Self)
        ensures
            r.binding == binding,
            r.pending is None,
            !r.conflict,
            !r.focused,
    {
        HotkeyInput { binding, pending: None, conflict: false, focused: false }
    }

    /// The binding shown: the one being entered, else the saved one.
    pub fn current_binding(&self) -> (r: Option<&HotkeyBinding>)
        ensures
            match r {
                Some(b) => self.pending == Some(*b) || (self.pending is None && self.binding == Some(
                    *b,
                )),
                None => self.pending is None && self.binding is None,
            },
    {
        match &self.pending {
            Some(p) => Some(p),
            None => self.binding.as_ref(),
        }
    }

    /// The text shown in the field.
    pub fn display_text(&self) -> (r: String)
        ensures
            r@ == match self.pending {
                Some(p) => hotkey_text(p@),
                None => match self.binding {
                    Some(b) => hotkey_text(b@),
                    None => placeholder_text(),
                },
            },
    {
        match self.current_binding() {
            Some(b) => format_hotkey(b),
            None => String::from_str("Press a key combination..."),
        }
    }

    /// Empties the field.
    pub fn clear(&mut self)
        ensures
            final(self).binding is None,
            final(self).pending is None,
            !final(self).conflict,
            final(self).focused == old(self).focused,
    {
        self.pending = None;
        self.binding = None;
        self.conflict = false;
    }
}

/// The tabs of the settings window, in display order.
#[derive(Debug, Clone, Copy, PartialEq, Eq, Structural)]
pub enum SettingsTab {
    Icons,
    Taskbar,
    System,
    About,
}

/// The tab at a position of the tab bar.
pub open spec fn tab_at(ix: int) -> Option<SettingsTab> {
    if ix == 0 {
        Some(SettingsTab::Icons)
    } else if ix == 1 {
        Some(SettingsTab::Taskbar)
    } else if ix == 2 {
        Some(SettingsTab::System)
    } else if ix == 3 {
        Some(SettingsTab::About)
    } else {
        None
    }
}

/// The position of a tab in the tab bar.
pub open spec fn tab_index(t: SettingsTab) -> usize {
    match t {
        SettingsTab::Icons => 0,
        SettingsTab::Taskbar => 1,
        SettingsTab::System => 2,
        SettingsTab::About => 3,
    }
}

/// The bytes of the key name "escape".
pub open spec fn escape_bytes() -> Seq<u8> {
    seq![101u8, 115u8, 99u8, 97u8, 112u8, 101u8]
}

fn is_escape(key: &str) -> (r: bool)
    ensures
        r == (key.spec_bytes() == escape_bytes()),
{
    let b = key.as_bytes();
    let r = b.len() == 6 && b[0] == 101 && b[1] == 115 && b[2] == 99 && b[3] == 97 && b[4] == 112
        && b[5] == 101;
    assert(r ==> b@ =~= escape_bytes());
    r
}

/// The state of the settings window.
pub struct SettingsForm {
    pub settings: Settings,
    pub hotkey_conflict: bool,
    pub taskbar_hotkey_conflict: bool,
    pub capturing_hotkey: bool,
    pub capturing_taskbar_hotkey: bool,
    pub active_tab: SettingsTab,
}

impl SettingsForm {
    /// The window as it opens: on the Icons tab, capturing nothing.
    pub fn new(settings: Settings) -> (r: Self)
        ensures
            r.settings == settings,
            !r.hotkey_conflict,
            !r.taskbar_hotkey_conflict,
            !r.capturing_hotkey,
            !r.capturing_taskbar_hotkey,
            r.active_tab == SettingsTab::Icons,
    {
        SettingsForm {
            settings,
            hotkey_conflict: false,
            taskbar_hotkey_conflict: false,
            capturing_hotkey: false,
            capturing_taskbar_hotkey: false,
            active_tab: SettingsTab::Icons,
        }
    }

    /// A click on the icon hotkey field starts capturing and clears the
    /// conflict warning.
    pub fn begin_hotkey_capture(&mut self)
        ensures
            *final(self) == (SettingsForm {
                capturing_hotkey: true,
                hotkey_conflict: false,
                ..*old(self)
            }),
    {
        self.capturing_hotkey = true;
        self.hotkey_conflict = false;
    }

    /// A click on the taskbar hotkey field starts capturing and clears the
    /// conflict warning.
    pub fn begin_taskbar_hotkey_capture(&mut self)
        ensures
            *final(self) == (SettingsForm {
                capturing_taskbar_hotkey: true,
                taskbar_hotkey_conflict: false,
                ..*old(self)
            }),
    {
        self.capturing_taskbar_hotkey = true;
        self.taskbar_hotkey_conflict = false;
    }

    /// A key pressed in the icon hotkey field. While capturing, Escape
    /// clears the hotkey and a valid keystroke becomes the hotkey; either
    /// ends capturing. Returns whether the settings changed (and must be
    /// applied).
    pub fn hotkey_key_down(&mut self, key: &str, modifiers: KeyModifiers) -> (apply: bool)
        ensures
            ({
                let parsed = keystroke_binding(key.spec_bytes(), modifiers);
                if !old(self).capturing_hotkey {
                    !apply && *final(self) == *old(self)
                } else if key.spec_bytes() == escape_bytes() {
                    &&& apply
                    &&& *final(self) == (SettingsForm {
                        capturing_hotkey: false,
                        settings: Settings { hotkey: None, ..old(self).settings },
                        ..*old(self)
                    })
                } else if parsed is Some {
                    &&& apply
                    &&& !final(self).capturing_hotkey
                    &&& opt_binding(final(self).settings.hotkey) == parsed
                    &&& final(self).settings.same_except_hotkey(&old(self).settings)
                    &&& final(self).hotkey_conflict == old(self).hotkey_conflict
                    &&& final(self).taskbar_hotkey_conflict == old(self).taskbar_hotkey_conflict
                    &&& final(self).capturing_taskbar_hotkey == old(self).capturing_taskbar_hotkey
                    &&& final(self).active_tab == old(self).active_tab
                } else {
                    !apply && *final(self) == *old(self)
                }
            }),
    {
        if !self.capturing_hotkey {
            return false;
        }
        if is_escape(key) {
            self.settings.hotkey = None;
            self.capturing_hotkey = false;
            return true;
        }
        match parse_keystroke(key, modifiers) {
            Some(binding) => {
                self.settings.hotkey = Some(binding);
                self.capturing_hotkey = false;
                true
            },
            None => false,
        }
    }

    /// A key pressed in the taskbar hotkey field. While capturing, Escape
    /// clears the taskbar hotkey; a valid keystroke ends capturing and
    /// becomes the taskbar hotkey unless it equals the icon hotkey, which
    /// raises the conflict warning instead. Returns whether the settings
    /// changed (and must be applied).
    pub fn taskbar_hotkey_key_down(&mut self, key: &str, modifiers: KeyModifiers) -> (apply: bool)
        ensures
            ({
                let parsed = keystroke_binding(key.spec_bytes(), modifiers);
                if !old(self).capturing_taskbar_hotkey {
                    !apply && *final(self) == *old(self)
                } else if key.spec_bytes() == escape_bytes() {
                    &&& apply
                    &&& *final(self) == (SettingsForm {
                        capturing_taskbar_hotkey: false,
                        settings: Settings { taskbar_hotkey: None, ..old(self).settings },
                        ..*old(self)
                    })
                } else if parsed is Some {
                    &&& !final(self).capturing_taskbar_hotkey
                    &&& final(self).settings.hotkey == old(self).settings.hotkey
                    &&& if opt_binding(old(self).settings.hotkey) == parsed {
                        &&& !apply
                        &&& final(self).taskbar_hotkey_conflict
                        &&& final(self).settings == old(self).settings
                    } else {
                        &&& apply
                        &&& opt_binding(final(self).settings.taskbar_hotkey) == parsed
                        &&& final(self).taskbar_hotkey_conflict == old(self).taskbar_hotkey_conflict
                        &&& final(self).settings == (Settings {
                            taskbar_hotkey: final(self).settings.taskbar_hotkey,
                            ..old(self).settings
                        })
                    }
                    &&& final(self).hotkey_conflict == old(self).hotkey_conflict
                    &&& final(self).capturing_hotkey == old(self).capturing_hotkey
                    &&& final(self).active_tab == old(self).active_tab
                } else {
                    !apply && *final(self) == *old(self)
                }
            }),
            // A taskbar hotkey set by capture never duplicates the icon hotkey.
            apply && final(self).settings.taskbar_hotkey is Some ==> opt_binding(
                final(self).settings.taskbar_hotkey,
            ) != opt_binding(final(self).settings.hotkey),
    {
        if !self.capturing_taskbar_hotkey {
            return false;
        }
        if is_escape(key) {
            self.settings.taskbar_hotkey = None;
            self.capturing_taskbar_hotkey = false;
            return true;
        }
        match parse_keystroke(key, modifiers) {
            Some(binding) => {
                self.capturing_taskbar_hotkey = false;
                let same = match &self.settings.hotkey {
                    Some(hk) => hk.same_as(&binding),
                    None => false,
                };
                if same {
                    self.taskbar_hotkey_conflict = true;
                    false
                } else {
                    self.settings.taskbar_hotkey = Some(binding);
                    true
                }
            },
            None => false,
        }
    }

    /// Flips whether the taskbar follows the icons.
    pub fn toggle_hide_taskbar_with_icons(&mut self)
        ensures
            *final(self) == (SettingsForm {
                settings: Settings {
                    hide_taskbar_with_icons: !old(self).settings.hide_taskbar_with_icons,
                    ..old(self).settings
                },
                ..*old(self)
            }),
    {
        self.settings.hide_taskbar_with_icons = !self.settings.hide_taskbar_with_icons;
    }

    /// Flips starting with Windows.
    pub fn toggle_start_with_windows(&mut self)
        ensures
            *final(self) == (SettingsForm {
                settings: Settings {
                    start_with_windows: !old(self).settings.start_with_windows,
                    ..old(self).settings
                },
                ..*old(self)
            }),
    {
        self.settings.start_with_windows = !self.settings.start_with_windows;
    }

    /// Flips starting minimized to the tray.
    pub fn toggle_start_minimized(&mut self)
        ensures
            *final(self) == (SettingsForm {
                settings: Settings {
                    start_minimized: !old(self).settings.start_minimized,
                    ..old(self).settings
                },
                ..*old(self)
            }),
    {
        self.settings.start_minimized = !self.settings.start_minimized;
    }

    /// The selected option of the minimize choice (0: taskbar, 1: tray).
    pub fn minimize_index(&self) -> (r: usize)
        ensures
            r == if self.settings.minimize_behavior == MinimizeBehavior::Taskbar { 0usize } else { 1usize },
    {
        match self.settings.minimize_behavior {
            MinimizeBehavior::Taskbar => 0,
            MinimizeBehavior::Tray => 1,
        }
    }

    /// The selected option of the close choice (0: exit, 1: tray).
    pub fn close_index(&self) -> (r: usize)
        ensures
            r == if self.settings.close_behavior == CloseBehavior::Exit { 0usize } else { 1usize },
    {
        match self.settings.close_behavior {
            CloseBehavior::Exit => 0,
            CloseBehavior::Tray => 1,
        }
    }

    /// Choosing an option of the minimize choice: 0 is the taskbar, any
    /// other the tray.
    pub fn set_minimize_index(&mut self, ix: usize)
        ensures
            *final(self) == (SettingsForm {
                settings: Settings {
                    minimize_behavior: if ix == 0 { MinimizeBehavior::Taskbar } else { MinimizeBehavior::Tray },
                    ..old(self).settings
                },
                ..*old(self)
            }),
    {
        self.settings.minimize_behavior = if ix == 0 {
            MinimizeBehavior::Taskbar
        } else {
            MinimizeBehavior::Tray
        };
    }

    /// Choosing an option of the close choice: 0 is exit, any other the
    /// tray.
    pub fn set_close_index(&mut self, ix: usize)
        ensures
            *final(self) == (SettingsForm {
                settings: Settings {
                    close_behavior: if ix == 0 { CloseBehavior::Exit } else { CloseBehavior::Tray },
                    ..old(self).settings
                },
                ..*old(self)
            }),
    {
        self.settings.close_behavior = if ix == 0 {
            CloseBehavior::Exit
        } else {
            CloseBehavior::Tray
        };
    }

    /// The position of the active tab.
    pub fn active_tab_index(&self) -> (r: usize)
        ensures
            r == tab_index(self.active_tab),
            tab_at(r as int) == Some(self.active_tab),
    {
        match self.active_tab {
            SettingsTab::Icons => 0,
            SettingsTab::Taskbar => 1,
            SettingsTab::System => 2,
            SettingsTab::About => 3,
        }
    }

    /// A click on the tab at position `ix`; a position past the last tab
    /// changes nothing. Returns whether a tab was selected.
    pub fn select_tab(&mut self, ix: usize) -> (selected: bool)
        ensures
            selected == (tab_at(ix as int) is Some),
            *final(self) == match tab_at(ix as int) {
                Some(t) => SettingsForm { active_tab: t, ..*old(self) },
                None => *old(self),
            },
    {
        let tab = if ix == 0 {
            SettingsTab::Icons
        } else if ix == 1 {
            SettingsTab::Taskbar
        } else if ix == 2 {
            SettingsTab::System
        } else if ix == 3 {
            SettingsTab::About
        } else {
            return false;
        };
        self.active_tab = tab;
        true
    }

    /// The text of the icon hotkey field.
    pub fn hotkey_field_text(&self) -> (r: String)
        ensures
            r@ == if self.capturing_hotkey {
                "Press a key combination... (Esc to clear)"@
            } else {
                match self.settings.hotkey {
                    Some(b) => hotkey_text(b@),
                    None => "Click to set hotkey"@,
                }
            },
    {
        if self.capturing_hotkey {
            String::from_str("Press a key combination... (Esc to clear)")
        } else {
            match &self.settings.hotkey {
                Some(b) => format_hotkey(b),
                None => String::from_str("Click to set hotkey"),
            }
        }
    }

    /// The text of the taskbar hotkey field.
    pub fn taskbar_hotkey_field_text(&self) -> (r: String)
        ensures
            r@ == if self.capturing_taskbar_hotkey {
                "Press a key combination... (Esc to clear)"@
            } else {
                match self.settings.taskbar_hotkey {
                    Some(b) => hotkey_text(b@),
                    None => "Click to set taskbar hotkey"@,
                }
            },
    {
        if self.capturing_taskbar_hotkey {
            String::from_str("Press a key combination... (Esc to clear)")
        } else {
            match &self.settings.taskbar_hotkey {
                Some(b) => format_hotkey(b),
                None => String::from_str("Click to set taskbar hotkey"),
            }
        }
    }

    /// The tip shown above the tabs.
    pub fn tip_text(&self) -> (r: &'static str)
        ensures
            r@ == if self.settings.hide_taskbar_with_icons {
                "Double-click on your desktop to toggle visibility of icons and taskbar."@
            } else {
                "Double-click on your desktop to toggle visibility of icons."@
            },
    {
        if self.settings.hide_taskbar_with_icons {
            "Double-click on your desktop to toggle visibility of icons and taskbar."
        } else {
            "Double-click on your desktop to toggle visibility of icons."
        }
    }
}

} // verus!
