use std::sync::mpsc::Sender;
use std::sync::{Arc, Mutex};
use std::time::Instant;
use vstd::prelude::*;

use crate::settings::{HotkeyBinding, Settings};
use crate::taskbar::ABS_AUTOHIDE;

verus! {

/// `std::time::Instant`, carried opaquely (when a snapshot was taken).
#[verifier::external_type_specification]
#[verifier::external_body]
pub struct ExInstant(Instant);

/// `std::sync::mpsc::Sender`, carried opaquely (the channel to the UI thread).
#[verifier::external_type_specification]
#[verifier::external_body]
#[verifier::reject_recursive_types(T)]
pub struct ExSender<T>(Sender<T>);

/// `std::sync::Mutex`, carried opaquely (the state shared between threads).
#[verifier::external_type_specification]
#[verifier::external_body]
#[verifier::reject_recursive_types(T)]
pub struct ExMutex<T: ?Sized>(Mutex<T>);

/// Current visibility state of desktop icons.
#[derive(Debug, Clone, Copy, PartialEq, Eq, Structural)]
pub enum ToggleState {
    Visible,
    Hidden,
}

/// Messages sent between the WinAPI background thread and GPUI main thread.
#[derive(Debug)]
pub enum AppEvent {
    ToggleTriggered,
    /// Separate taskbar hotkey pressed (only in separate mode).
    TaskbarToggleTriggered,
    SettingsWindowRequested,
    ExitRequested,
    HotkeyConflict(HotkeyBinding),
    /// Taskbar hotkey registration failed - conflict detected.
    TaskbarHotkeyConflict(HotkeyBinding),
    NativeToggleDetected,
}

/// Per-icon data captured from the desktop listview.
#[derive(Debug, Clone, Copy)]
pub struct IconPosition {
    pub index: usize,
    pub point: (i32, i32),
    pub bounds: (i32, i32, i32, i32),
}

/// Snapshot of all icon positions captured before hiding.
#[derive(Debug)]
pub struct DesktopSnapshot {
    pub item_count: usize,
    pub positions: Vec<IconPosition>,
    pub captured_at: Instant,
}

impl Clone for DesktopSnapshot {
    fn clone(&self) -> (r: Self)
        ensures
            r.item_count == self.item_count,
            r.positions@ == self.positions@,
            r.captured_at == self.captured_at,
    {
        let mut positions: Vec<IconPosition> = Vec::new();
        let mut i: usize = 0;
        while i < self.positions.len()
            invariant
                i <= self.positions.len(),
                positions@ == self.positions@.take(i as int),
            decreases self.positions.len() - i,
        {
            positions.push(self.positions[i]);
            i = i + 1;
            assert(positions@ =~= self.positions@.take(i as int));
        }
        assert(positions@ =~= self.positions@);
        DesktopSnapshot { item_count: self.item_count, positions, captured_at: self.captured_at }
    }
}

/// Shared application state accessed by both threads.
pub struct AppState {
    pub toggle_state: ToggleState,
    /// Whether the taskbar is currently in app-controlled auto-hide mode.
    pub taskbar_hidden: bool,
    /// Original taskbar state from ABM_GETSTATE before we changed it.
    pub taskbar_original_state: Option<u32>,
    pub settings: Settings,
    pub snapshot: Option<DesktopSnapshot>,
    pub listview_hwnd: Option<isize>,
    pub gpui_tx: Sender<AppEvent>,
    /// HWND of the WinAPI background thread's message-only window.
    /// Set by the WinAPI thread after creation; used by GPUI thread to post messages.
    pub winapi_hwnd: Option<isize>,
}

pub type SharedState = Arc<Mutex<AppState>>;

/// What `std::sync::Mutex::new` returns for `state`: a new, unlocked mutex
/// holding it. A mutex is opaque here, so its contents are only named.
pub uninterp spec fn mutex_holding(state: AppState) -> Mutex<AppState>;

/// `std::sync::Mutex::new`: wraps the state in a new, unlocked mutex. The
/// contract only names the result as the mutex holding `state`.
#[verifier::external_body]
fn new_mutex(state: AppState) -> (m: Mutex<AppState>)
    ensures
        m == mutex_holding(state),
{
    Mutex::new(state)
}

/// A request to change the taskbar auto-hide setting: enable it (capturing
/// the current state), or disable it restoring `original_state`.
#[derive(Debug, Clone, Copy, PartialEq, Eq, Structural)]
pub struct AutohideRequest {
    pub enable: bool,
    pub original_state: Option<u32>,
}

/// The request that puts the taskbar into app-controlled auto-hide.
pub open spec fn enable_request() -> AutohideRequest {
    AutohideRequest { enable: true, original_state: None }
}

/// The request that forces auto-hide off during a toggle cycle
/// (always-on-top only); the saved original is kept for exit.
pub open spec fn force_off_request() -> AutohideRequest {
    AutohideRequest { enable: false, original_state: Some(0) }
}

/// The state after the system answered `result` to `request`.
pub open spec fn after_autohide(
    s: AppState,
    request: AutohideRequest,
    result: Result<Option<u32>, ()>,
) -> AppState {
    if request.enable {
        match result {
            Ok(Some(original)) => AppState {
                taskbar_hidden: true,
                taskbar_original_state: Some(original),
                settings: Settings { taskbar_original_state: Some(original), ..s.settings },
                ..s
            },
            _ => s,
        }
    } else {
        match result {
            Ok(_) => AppState { taskbar_hidden: false, taskbar_original_state: None, ..s },
            Err(_) => s,
        }
    }
}

/// Whether the settings must be written after the system answered `result`
/// to `request`: only when a new original state was recorded.
pub open spec fn autohide_saves(request: AutohideRequest, result: Result<Option<u32>, ()>) -> bool {
    request.enable && result matches Ok(Some(_))
}

/// The state with icons visible again and the snapshot consumed.
pub open spec fn icons_shown(s: AppState) -> AppState {
    AppState { toggle_state: ToggleState::Visible, snapshot: None, ..s }
}

impl AppState {
    /// The invariant every operation keeps between runs: an app-controlled
    /// taskbar always has its original state recorded, both in the runtime
    /// state and in the persisted settings; visible icons have no pending
    /// snapshot.
    pub open spec fn wf(&self) -> bool {
        &&& self.taskbar_hidden ==> {
            &&& self.taskbar_original_state is Some
            &&& self.settings.taskbar_original_state == self.taskbar_original_state
        }
        &&& self.toggle_state == ToggleState::Visible ==> self.snapshot is None
    }

    /// The state a freshly started app has before looking at the desktop.
    pub open spec fn is_initial(&self, settings: Settings, tx: Sender<AppEvent>) -> bool {
        &&& self.toggle_state == ToggleState::Visible
        &&& !self.taskbar_hidden
        &&& self.taskbar_original_state is None
        &&& self.settings == settings
        &&& self.snapshot is None
        &&& self.listview_hwnd is None
        &&& self.gpui_tx == tx
        &&& self.winapi_hwnd is None
    }

    /// The state a freshly started app has: icons visible, taskbar not
    /// controlled, no window handles known yet.
    pub open spec fn initial_state(settings: Settings, tx: Sender<AppEvent>) -> AppState {
        AppState {
            toggle_state: ToggleState::Visible,
            taskbar_hidden: false,
            taskbar_original_state: None,
            settings,
            snapshot: None,
            listview_hwnd: None,
            gpui_tx: tx,
            winapi_hwnd: None,
        }
    }

    /// The state a freshly started app has: icons visible, taskbar not
    /// controlled, no window handles known yet.
    pub fn initial(settings: Settings, tx: Sender<AppEvent>) -> (r: AppState)
        ensures
            r == AppState::initial_state(settings, tx),
            r.is_initial(settings, tx),
            settings.taskbar_original_state is None ==> r.wf(),
    {
        AppState {
            toggle_state: ToggleState::Visible,
            taskbar_hidden: false,
            taskbar_original_state: None,
            settings,
            snapshot: None,
            listview_hwnd: None,
            gpui_tx: tx,
            winapi_hwnd: None,
        }
    }

    /// Creates the shared state of a freshly started app: the mutex holding
    /// the state `initial` describes, shared behind an `Arc`.
    pub fn new(settings: Settings, tx: Sender<AppEvent>) -> (r: SharedState)
        ensures
            *r == mutex_holding(AppState::initial_state(settings, tx)),
    {
        Arc::new(new_mutex(AppState::initial(settings, tx)))
    }

    /// The request a taskbar toggle makes: force auto-hide off when the app
    /// controls the taskbar, enable it otherwise.
    pub fn taskbar_toggle_request(&self) -> (r: AutohideRequest)
        ensures
            r == if self.taskbar_hidden { force_off_request() } else { enable_request() },
    {
        if self.taskbar_hidden {
            AutohideRequest { enable: false, original_state: Some(0) }
        } else {
            AutohideRequest { enable: true, original_state: None }
        }
    }

    /// The request that enables auto-hide, or `None` when the app already
    /// controls the taskbar.
    pub fn enable_taskbar_request(&self) -> (r: Option<AutohideRequest>)
        ensures
            r == if self.taskbar_hidden { None } else { Some(enable_request()) },
    {
        if self.taskbar_hidden {
            None
        } else {
            Some(AutohideRequest { enable: true, original_state: None })
        }
    }

    /// The request that forces auto-hide off, or `None` when the app does
    /// not control the taskbar.
    pub fn restore_taskbar_request(&self) -> (r: Option<AutohideRequest>)
        ensures
            r == if self.taskbar_hidden { Some(force_off_request()) } else { None },
    {
        if self.taskbar_hidden {
            Some(AutohideRequest { enable: false, original_state: Some(0) })
        } else {
            None
        }
    }

    /// Records what the system answered to `request`. Enabling records the
    /// captured original both at runtime and in the settings (which then
    /// must be saved; the result says so); forcing auto-hide off releases
    /// control but keeps the persisted original for exit restoration.
    /// A failed call changes nothing.
    pub fn apply_autohide_result(
        &mut self,
        request: AutohideRequest,
        result: Result<Option<u32>, ()>,
    ) -> (save: bool)
        ensures
            *final(self) == after_autohide(*old(self), request, result),
            save == autohide_saves(request, result),
    {
        if request.enable {
            match result {
                Ok(Some(original)) => {
                    self.taskbar_hidden = true;
                    self.taskbar_original_state = Some(original);
                    self.settings.taskbar_original_state = Some(original);
                    true
                },
                _ => false,
            }
        } else {
            match result {
                Ok(_) => {
                    self.taskbar_hidden = false;
                    self.taskbar_original_state = None;
                    false
                },
                Err(_) => false,
            }
        }
    }

    /// The listview a double click must be hit-tested against: the known
    /// one while the icons are visible (a click on an icon is left to the
    /// system). While the icons are hidden every double click toggles.
    pub fn hit_test_listview(&self) -> (r: Option<isize>)
        ensures
            r == if self.toggle_state == ToggleState::Visible { self.listview_hwnd } else { None },
    {
        match self.toggle_state {
            ToggleState::Visible => self.listview_hwnd,
            ToggleState::Hidden => None,
        }
    }

    /// Flips starting with Windows (from the tray menu). Returns the new
    /// value; the settings must then be saved.
    pub fn toggle_start_with_windows(&mut self) -> (r: bool)
        ensures
            r == !old(self).settings.start_with_windows,
            *final(self) == (AppState {
                settings: Settings { start_with_windows: r, ..old(self).settings },
                ..*old(self)
            }),
    {
        let new_val = !self.settings.start_with_windows;
        self.settings.start_with_windows = new_val;
        new_val
    }

    /// The listview whose visibility must be checked: the known one while
    /// the icons are hidden.
    pub fn hidden_listview(&self) -> (r: Option<isize>)
        ensures
            r == if self.toggle_state == ToggleState::Hidden { self.listview_hwnd } else { None },
    {
        match self.toggle_state {
            ToggleState::Hidden => self.listview_hwnd,
            ToggleState::Visible => None,
        }
    }

    /// Marks the icons as visible again and drops the snapshot.
    pub fn mark_icons_shown(&mut self)
        ensures
            *final(self) == icons_shown(*old(self)),
    {
        self.toggle_state = ToggleState::Visible;
        self.snapshot = None;
    }

    /// Takes in that the hidden listview was found `visible` (the icons were
    /// shown by other means). Returns whether that was a change the other
    /// thread must hear of.
    pub fn observe_native_icons(&mut self, visible: bool) -> (changed: bool)
        ensures
            changed == (visible && old(self).toggle_state == ToggleState::Hidden
                && old(self).listview_hwnd is Some),
            *final(self) == if changed { icons_shown(*old(self)) } else { *old(self) },
    {
        if visible && self.toggle_state == ToggleState::Hidden && self.listview_hwnd.is_some() {
            self.mark_icons_shown();
            true
        } else {
            false
        }
    }

    /// Takes in the taskbar state read from the system. When the app
    /// controls the taskbar and auto-hide was switched off externally, gives
    /// up control and every record of the original. Returns whether the
    /// settings must be saved.
    pub fn observe_taskbar_state(&mut self, taskbar_state: u32) -> (save: bool)
        ensures
            save == (old(self).taskbar_hidden && taskbar_state & ABS_AUTOHIDE == 0),
            *final(self) == if save {
                AppState {
                    taskbar_hidden: false,
                    taskbar_original_state: None,
                    settings: Settings { taskbar_original_state: None, ..old(self).settings },
                    ..*old(self)
                }
            } else {
                *old(self)
            },
    {
        if self.taskbar_hidden && !crate::taskbar::autohide_active(taskbar_state) {
            self.taskbar_hidden = false;
            self.taskbar_original_state = None;
            self.settings.taskbar_original_state = None;
            true
        } else {
            false
        }
    }
}

/// The app's world-model resolved from the real OS state at startup.
#[derive(Debug, Clone, Copy, PartialEq, Eq, Structural)]
pub struct InitialState {
    pub toggle_state: ToggleState,
    pub taskbar_hidden: bool,
    pub taskbar_original_state: Option<u32>,
    /// True when settings.taskbar_original_state is stale and must be cleared/saved.
    pub clear_persisted_original: bool,
}

/// What the app believes at startup given the observed facts.
pub open spec fn resolved(
    icons_visible: bool,
    taskbar_autohide: bool,
    persisted_original: Option<u32>,
) -> InitialState {
    InitialState {
        toggle_state: if icons_visible { ToggleState::Visible } else { ToggleState::Hidden },
        taskbar_hidden: persisted_original is Some && taskbar_autohide,
        taskbar_original_state: if taskbar_autohide { persisted_original } else { None },
        clear_persisted_original: persisted_original is Some && !taskbar_autohide,
    }
}

/// Pure resolver for the initial app state. Decides what the app should believe
/// given the *observed* OS facts plus the persisted taskbar original, WITHOUT
/// changing the desktop.
///
/// - Icons: the observed visibility is authoritative, so it is adopted verbatim.
/// - Taskbar: the auto-hide bit is reliable as a fact but ambiguous as to cause,
///   so control is claimed only with a persisted record AND auto-hide still
///   active. A record with auto-hide off means an external reset: the stale
///   record is dropped. With no record auto-hide is never claimed.
pub fn resolve_initial_state(
    icons_visible: bool,
    taskbar_autohide: bool,
    persisted_original: Option<u32>,
) -> (r: InitialState)
    ensures
        r == resolved(icons_visible, taskbar_autohide, persisted_original),
{
    let toggle_state = if icons_visible {
        ToggleState::Visible
    } else {
        ToggleState::Hidden
    };
    let (taskbar_hidden, taskbar_original_state, clear_persisted_original) =
        match persisted_original {
            Some(orig) => {
                if taskbar_autohide {
                    (true, Some(orig), false)
                } else {
                    (false, None, true)
                }
            },
            None => (false, None, false),
        };
    InitialState { toggle_state, taskbar_hidden, taskbar_original_state, clear_persisted_original }
}

/// Resolves the initial app state from what was observed of the system: the
/// desktop listview with its visibility, if it was found, and whether the
/// taskbar auto-hides. A listview that could not be found counts as visible
/// icons. A stale persisted taskbar original is cleared from `settings`
/// (the caller then saves them). Returns the resolved state and the listview
/// handle.
pub fn detect_initial_state(
    settings: &mut Settings,
    listview: Option<(isize, bool)>,
    taskbar_autohide: bool,
) -> (r: (InitialState, Option<isize>))
    ensures
        r.0 == resolved(
            match listview { Some((_, visible)) => visible, None => true },
            taskbar_autohide,
            old(settings).taskbar_original_state,
        ),
        r.1 == match listview { Some((h, _)) => Some(h), None => None },
        *final(settings) == if r.0.clear_persisted_original {
            Settings { taskbar_original_state: None, ..*old(settings) }
        } else {
            *old(settings)
        },
{
    let icons_visible = match listview {
        Some((_, visible)) => visible,
        None => true,
    };
    let resolved = resolve_initial_state(icons_visible, taskbar_autohide, settings.taskbar_original_state);
    if resolved.clear_persisted_original {
        settings.taskbar_original_state = None;
    }
    let handle = match listview {
        Some((h, _)) => Some(h),
        None => None,
    };
    (resolved, handle)
}

/// Restores taskbar to the user's true original state, on app exit and crash
/// recovery. When the app controls the taskbar or an original is recorded
/// (at runtime first, else in the settings), every record is cleared and the
/// request that restores that original is returned; the caller makes it and
/// saves the settings. Otherwise nothing changes.
pub fn restore_taskbar_for_exit(guard: &mut AppState) -> (r: Option<AutohideRequest>)
    ensures
        r == exit_request(*old(guard)),
        *final(guard) == if r is Some { taskbar_released(*old(guard)) } else { *old(guard) },
{
    let original = match guard.taskbar_original_state {
        Some(o) => Some(o),
        None => guard.settings.taskbar_original_state,
    };
    if guard.taskbar_hidden || original.is_some() {
        guard.taskbar_hidden = false;
        guard.taskbar_original_state = None;
        guard.settings.taskbar_original_state = None;
        Some(AutohideRequest { enable: false, original_state: original })
    } else {
        None
    }
}

/// A taskbar toggle keeps the state invariant whatever the system answers:
/// the request matches whether the app controls the taskbar, and recording
/// the answer keeps the original state recorded exactly while the app
/// controls the taskbar.
pub proof fn lemma_taskbar_toggle_keeps_wf(s: AppState, result: Result<Option<u32>, ()>)
    requires
        s.wf(),
    ensures
        ({
            let request = if s.taskbar_hidden { force_off_request() } else { enable_request() };
            after_autohide(s, request, result).wf()
        }),
{
}

/// Enabling auto-hide and then forcing it off releases the taskbar but keeps
/// the captured original persisted, so that exit can restore it; exit then
/// restores exactly that original and leaves no record behind.
pub proof fn lemma_taskbar_cycle_then_exit(s: AppState, original: u32, off_result: Option<u32>)
    requires
        s.wf(),
        !s.taskbar_hidden,
    ensures
        ({
            let s1 = after_autohide(s, enable_request(), Ok(Some(original)));
            let s2 = after_autohide(s1, force_off_request(), Ok(off_result));
            &&& s1.taskbar_hidden && s1.taskbar_original_state == Some(original)
            &&& s1.settings.taskbar_original_state == Some(original)
            &&& !s2.taskbar_hidden && s2.taskbar_original_state is None
            &&& s2.settings.taskbar_original_state == Some(original)
            &&& s2.wf()
            &&& exit_request(s2) == Some(AutohideRequest { enable: false, original_state: Some(original) })
        }),
{
}

/// The request exit makes for state `s`, as `restore_taskbar_for_exit` states it.
pub open spec fn exit_request(s: AppState) -> Option<AutohideRequest> {
    let original = match s.taskbar_original_state {
        Some(o) => Some(o),
        None => s.settings.taskbar_original_state,
    };
    if s.taskbar_hidden || original is Some {
        Some(AutohideRequest { enable: false, original_state: original })
    } else {
        None
    }
}

/// The startup resolution never claims the taskbar without a persisted
/// record, claims it only while auto-hide is on, keeps the recorded original
/// whenever it claims control, and asks to clear the record exactly when it
/// has gone stale.
pub proof fn lemma_resolved_claims_only_recorded(
    icons_visible: bool,
    taskbar_autohide: bool,
    persisted_original: Option<u32>,
)
    ensures
        ({
            let r = resolved(icons_visible, taskbar_autohide, persisted_original);
            &&& r.taskbar_hidden ==> persisted_original is Some && taskbar_autohide
            &&& r.taskbar_hidden ==> r.taskbar_original_state == persisted_original
            &&& !r.taskbar_hidden ==> r.taskbar_original_state is None
            &&& r.clear_persisted_original ==> !r.taskbar_hidden
            &&& !(r.taskbar_hidden && r.clear_persisted_original)
        }),
{
}

/// Observing the system (icons shown by other means, auto-hide switched off
/// externally) keeps the state invariant.
pub proof fn lemma_observations_keep_wf(s: AppState, visible: bool, taskbar_state: u32)
    requires
        s.wf(),
    ensures
        ({
            let changed = visible && s.toggle_state == ToggleState::Hidden && s.listview_hwnd is Some;
            let s1 = if changed { icons_shown(s) } else { s };
            let cleared = s.taskbar_hidden && taskbar_state & ABS_AUTOHIDE == 0;
            let s2 = if cleared {
                AppState {
                    taskbar_hidden: false,
                    taskbar_original_state: None,
                    settings: Settings { taskbar_original_state: None, ..s.settings },
                    ..s
                }
            } else {
                s
            };
            s1.wf() && s2.wf()
        }),
{
}

/// The state with the taskbar released and every record of its original
/// dropped.
pub open spec fn taskbar_released(s: AppState) -> AppState {
    AppState {
        taskbar_hidden: false,
        taskbar_original_state: None,
        settings: Settings { taskbar_original_state: None, ..s.settings },
        ..s
    }
}

/// The exit sequence (show the icons if they are hidden in a known
/// listview, then restore the taskbar) leaves the icons visible whenever
/// the listview is known, the taskbar released with no record of its
/// original left, and the state well-formed.
pub proof fn lemma_exit_sequence(s: AppState)
    requires
        s.wf(),
    ensures
        ({
            let s1 = if s.toggle_state == ToggleState::Hidden && s.listview_hwnd is Some {
                icons_shown(s)
            } else {
                s
            };
            let s2 = if exit_request(s1) is Some { taskbar_released(s1) } else { s1 };
            &&& s.listview_hwnd is Some ==> s2.toggle_state == ToggleState::Visible
            &&& !s2.taskbar_hidden
            &&& s2.taskbar_original_state is None
            &&& s2.settings.taskbar_original_state is None
            &&& s2.wf()
        }),
{
}

} // verus!
