use vstd::prelude::*;

verus! {

/// Keyboard modifier keys.
#[derive(Debug, Clone, Copy, PartialEq, Eq, Structural)]
pub enum Modifier {
    Ctrl,
    Alt,
    Shift,
    Win,
}

/// Virtual key for the hotkey binding.
#[derive(Debug, Clone, Copy, PartialEq, Eq, Structural)]
pub enum VirtualKey {
    Char(char),
    F(u8),
}

impl VirtualKey {
    /// Returns true if this key is F12 (prohibited).
    pub fn is_f12(&self) -> (r: bool)
        ensures
            r == (*self == VirtualKey::F(12)),
    {
        match self {
            VirtualKey::F(n) => *n == 12,
            VirtualKey::Char(_) => false,
        }
    }
}

/// A hotkey binding consisting of modifiers and a primary key.
#[derive(Debug, PartialEq, Eq)]
pub struct HotkeyBinding {
    pub modifiers: Vec<Modifier>,
    pub key: VirtualKey,
}

impl View for HotkeyBinding {
    type V = (Seq<Modifier>, VirtualKey);

    open spec fn view(&self) -> (Seq<Modifier>, VirtualKey) {
        (self.modifiers@, self.key)
    }
}

/// The binding a fresh installation starts with: Ctrl + Alt + H.
pub open spec fn default_binding() -> (Seq<Modifier>, VirtualKey) {
    (seq![Modifier::Ctrl, Modifier::Alt], VirtualKey::Char('H'))
}

/// A binding is usable when it has at least one modifier and is not F12.
pub open spec fn binding_is_valid(b: (Seq<Modifier>, VirtualKey)) -> bool {
    b.0.len() > 0 && b.1 != VirtualKey::F(12)
}

/// The view of an optional binding.
pub open spec fn opt_binding(o: Option<HotkeyBinding>) -> Option<(Seq<Modifier>, VirtualKey)> {
    match o {
        Some(b) => Some(b@),
        None => None,
    }
}

impl Clone for HotkeyBinding {
    fn clone(&self) -> (r: Self)
        ensures
            r@ == self@,
    {
        let mut modifiers: Vec<Modifier> = Vec::new();
        let mut i: usize = 0;
        while i < self.modifiers.len()
            invariant
                i <= self.modifiers.len(),
                modifiers@ == self.modifiers@.take(i as int),
            decreases self.modifiers.len() - i,
        {
            modifiers.push(self.modifiers[i]);
            i = i + 1;
            assert(modifiers@ =~= self.modifiers@.take(i as int));
        }
        assert(modifiers@ =~= self.modifiers@);
        HotkeyBinding { modifiers, key: self.key }
    }
}

impl Default for HotkeyBinding {
    fn default() -> (r: Self)
        ensures
            r@ == default_binding(),
    {
        let mut modifiers: Vec<Modifier> = Vec::new();
        modifiers.push(Modifier::Ctrl);
        modifiers.push(Modifier::Alt);
        assert(modifiers@ =~= seq![Modifier::Ctrl, Modifier::Alt]);
        HotkeyBinding { modifiers, key: VirtualKey::Char('H') }
    }
}

impl HotkeyBinding {
    /// Validates the binding. Returns false if F12 or no modifiers.
    pub fn is_valid(&self) -> (r: bool)
        ensures
            r == binding_is_valid(self@),
    {
        !self.modifiers.is_empty() && !self.key.is_f12()
    }

    /// Whether two bindings name the same modifiers, in the same order, and
    /// the same key.
    pub fn same_as(&self, other: &HotkeyBinding) -> (r: bool)
        ensures
            r == (self@ == other@),
    {
        if self.key != other.key || self.modifiers.len() != other.modifiers.len() {
            return false;
        }
        let mut i: usize = 0;
        while i < self.modifiers.len()
            invariant
                i <= self.modifiers.len(),
                self.modifiers.len() == other.modifiers.len(),
                forall|j: int| 0 <= j < i ==> self.modifiers@[j] == other.modifiers@[j],
            decreases self.modifiers.len() - i,
        {
            if self.modifiers[i] != other.modifiers[i] {
                return false;
            }
            i = i + 1;
        }
        assert(self.modifiers@ =~= other.modifiers@);
        true
    }
}

/// Behavior when the settings window minimize button is clicked.
#[derive(Debug, Clone, Copy, PartialEq, Eq, Structural)]
pub enum MinimizeBehavior {
    Taskbar,
    Tray,
}

impl Default for MinimizeBehavior {
    fn default() -> (r: Self)
        ensures
            r == MinimizeBehavior::Tray,
    {
        MinimizeBehavior::Tray
    }
}

/// Behavior when the settings window close button is clicked.
#[derive(Debug, Clone, Copy, PartialEq, Eq, Structural)]
pub enum CloseBehavior {
    Exit,
    Tray,
}

impl Default for CloseBehavior {
    fn default() -> (r: Self)
        ensures
            r == CloseBehavior::Tray,
    {
        CloseBehavior::Tray
    }
}

/// UI theme mode.
#[derive(Debug, Clone, Copy, PartialEq, Eq, Structural)]
pub enum ThemeMode {
    Dark,
    Light,
}

impl Default for ThemeMode {
    fn default() -> (r: Self)
        ensures
            r == ThemeMode::Dark,
    {
        ThemeMode::Dark
    }
}

/// User settings persisted to %APPDATA%\Polterdesk\settings.json.
#[derive(Debug, Clone)]
pub struct Settings {
    pub hotkey: Option<HotkeyBinding>,
    pub start_with_windows: bool,
    pub theme_mode: ThemeMode,
    /// When true, all toggle actions (hotkey + double-click) also toggle taskbar auto-hide.
    pub hide_taskbar_with_icons: bool,
    /// Separate hotkey for taskbar toggle; active only when hide_taskbar_with_icons is false.
    pub taskbar_hotkey: Option<HotkeyBinding>,
    /// When true, the app starts hidden in the system tray (no settings window shown).
    pub start_minimized: bool,
    /// What happens when the minimize button is clicked.
    pub minimize_behavior: MinimizeBehavior,
    /// What happens when the close button is clicked.
    pub close_behavior: CloseBehavior,
    /// Persisted original taskbar state for crash recovery; cleared after restore.
    pub taskbar_original_state: Option<u32>,
}

impl Settings {
    /// The settings of a fresh installation.
    pub open spec fn is_default(&self) -> bool {
        &&& opt_binding(self.hotkey) == Some(default_binding())
        &&& !self.start_with_windows
        &&& self.theme_mode == ThemeMode::Dark
        &&& self.hide_taskbar_with_icons
        &&& self.taskbar_hotkey is None
        &&& !self.start_minimized
        &&& self.minimize_behavior == MinimizeBehavior::Tray
        &&& self.close_behavior == CloseBehavior::Tray
        &&& self.taskbar_original_state is None
    }

    /// Every field but the hotkey is the same in both settings.
    pub open spec fn same_except_hotkey(&self, other: &Settings) -> bool {
        &&& self.start_with_windows == other.start_with_windows
        &&& self.theme_mode == other.theme_mode
        &&& self.hide_taskbar_with_icons == other.hide_taskbar_with_icons
        &&& self.taskbar_hotkey == other.taskbar_hotkey
        &&& self.start_minimized == other.start_minimized
        &&& self.minimize_behavior == other.minimize_behavior
        &&& self.close_behavior == other.close_behavior
        &&& self.taskbar_original_state == other.taskbar_original_state
    }
}

/// Value of a missing `hide_taskbar_with_icons` field in a settings file.
pub fn default_true() -> (r: bool)
    ensures
        r,
{
    true
}

/// Value of a missing `hotkey` field in a settings file.
pub fn default_hotkey() -> (r: Option<HotkeyBinding>)
    ensures
        opt_binding(r) == Some(default_binding()),
{
    Some(HotkeyBinding::default())
}

impl Default for Settings {
    fn default() -> (r: Self)
        ensures
            r.is_default(),
    {
        Settings {
            hotkey: Some(HotkeyBinding::default()),
            start_with_windows: false,
            theme_mode: ThemeMode::Dark,
            hide_taskbar_with_icons: true,
            start_minimized: false,
            minimize_behavior: MinimizeBehavior::Tray,
            close_behavior: CloseBehavior::Tray,
            taskbar_hotkey: None,
            taskbar_original_state: None,
        }
    }
}

/// What became of the attempt to read the settings file.
pub enum LoadOutcome {
    /// The settings location could not be determined (APPDATA not set).
    NoLocation,
    /// The file could not be read.
    Unreadable,
    /// The file was read but is not valid settings JSON.
    Malformed,
    /// The file parsed into these settings.
    Parsed(Settings),
}

/// Settings to run with after a load, and whether they must be written back.
pub struct LoadedSettings {
    pub settings: Settings,
    pub save: bool,
}

impl Settings {
    /// Decides the settings to run with from the outcome of reading the
    /// settings file: defaults on any failure (written back unless the
    /// location is unknown), the parsed settings otherwise, with an invalid
    /// hotkey reverted to the default binding and written back.
    pub fn resolve_load(outcome: LoadOutcome) -> (r: LoadedSettings)
        ensures
            match outcome {
                LoadOutcome::NoLocation => r.settings.is_default() && !r.save,
                LoadOutcome::Unreadable => r.settings.is_default() && r.save,
                LoadOutcome::Malformed => r.settings.is_default() && r.save,
                LoadOutcome::Parsed(s) => match s.hotkey {
                    Some(hk) if !binding_is_valid(hk@) => {
                        &&& r.save
                        &&& r.settings.same_except_hotkey(&s)
                        &&& opt_binding(r.settings.hotkey) == Some(default_binding())
                    },
                    _ => !r.save && r.settings == s,
                },
            },
    {
        match outcome {
            LoadOutcome::NoLocation => LoadedSettings { settings: Settings::default(), save: false },
            LoadOutcome::Unreadable => LoadedSettings { settings: Settings::default(), save: true },
            LoadOutcome::Malformed => LoadedSettings { settings: Settings::default(), save: true },
            LoadOutcome::Parsed(mut settings) => {
                let invalid = match &settings.hotkey {
                    Some(hk) => !hk.is_valid(),
                    None => false,
                };
                if invalid {
                    settings.hotkey = Some(HotkeyBinding::default());
                    LoadedSettings { settings, save: true }
                } else {
                    LoadedSettings { settings, save: false }
                }
            },
        }
    }

    /// Takes the persisted taskbar original left by a previous run, leaving
    /// none behind. Returns it when there was one.
    pub fn take_taskbar_original(&mut self) -> (r: Option<u32>)
        ensures
            r == old(self).taskbar_original_state,
            *final(self) == (Settings { taskbar_original_state: None, ..*old(self) }),
    {
        self.taskbar_original_state.take()
    }
}

} // verus!
