//! The toggle of desktop icons (and, in combined mode, of taskbar
//! auto-hide) as a state machine. The caller performs each action the
//! machine asks for and hands back what happened.

use vstd::prelude::*;

use crate::app_state::{
    after_autohide, autohide_saves, enable_request, force_off_request, icons_shown, AppState,
    AutohideRequest, DesktopSnapshot, ToggleState,
};

verus! {

/// Where a toggle run stands.
#[derive(Debug, Clone, Copy, PartialEq, Eq, Structural)]
pub enum TogglePhase {
    /// Waiting to learn whether the remembered listview still exists.
    CheckingWindow(isize),
    /// Waiting for a search for the desktop listview.
    FindingListview,
    /// Waiting for the icon positions of the listview to be captured.
    Capturing(isize),
    /// Waiting for the listview to be hidden.
    Hiding(isize),
    /// Waiting for the listview to be shown.
    Showing(isize),
    /// Waiting for the icon positions to be restored.
    Restoring(isize),
    /// Waiting for the answer to a taskbar auto-hide request.
    SettingAutohide(AutohideRequest),
    /// The toggle is complete.
    Finished,
    /// No desktop listview could be found; nothing was changed.
    Abandoned,
}

/// What happened when the caller performed the last action.
#[derive(Debug)]
pub enum ToggleEvent {
    WindowChecked(bool),
    ListviewFound(Option<isize>),
    SnapshotCaptured(Option<DesktopSnapshot>),
    IconsHidden,
    IconsShown,
    PositionsRestored,
    AutohideSet(Result<Option<u32>, ()>),
}

/// What the caller must do next.
#[derive(Debug, Clone, Copy, PartialEq, Eq, Structural)]
pub enum ToggleAction {
    /// Check whether this window still exists.
    CheckWindow(isize),
    /// Search for the desktop listview.
    FindListview,
    /// Capture the icon positions of this listview.
    CaptureSnapshot(isize),
    /// Hide this listview.
    HideIcons(isize),
    /// Show this listview without activating it.
    ShowIcons(isize),
    /// Restore the icon positions of the state's snapshot in this listview.
    RestorePositions(isize),
    /// Change the taskbar auto-hide setting.
    SetAutohide(AutohideRequest),
    /// The toggle is complete; save the settings if asked to.
    Done { save_settings: bool },
    /// No desktop listview exists; the toggle was given up.
    ListviewMissing,
}

/// A toggle in progress.
pub struct ToggleRun {
    pub phase: TogglePhase,
    /// The icon state when the run began.
    pub started_from: ToggleState,
}

/// The action a phase is waiting on.
pub open spec fn pending(phase: TogglePhase) -> ToggleAction {
    match phase {
        TogglePhase::CheckingWindow(h) => ToggleAction::CheckWindow(h),
        TogglePhase::FindingListview => ToggleAction::FindListview,
        TogglePhase::Capturing(h) => ToggleAction::CaptureSnapshot(h),
        TogglePhase::Hiding(h) => ToggleAction::HideIcons(h),
        TogglePhase::Showing(h) => ToggleAction::ShowIcons(h),
        TogglePhase::Restoring(h) => ToggleAction::RestorePositions(h),
        TogglePhase::SettingAutohide(r) => ToggleAction::SetAutohide(r),
        TogglePhase::Finished => ToggleAction::Done { save_settings: false },
        TogglePhase::Abandoned => ToggleAction::ListviewMissing,
    }
}

/// How a run begins: with the remembered listview, or with a search.
pub open spec fn begin_spec(s: AppState) -> (TogglePhase, ToggleAction) {
    match s.listview_hwnd {
        Some(h) => (TogglePhase::CheckingWindow(h), ToggleAction::CheckWindow(h)),
        None => (TogglePhase::FindingListview, ToggleAction::FindListview),
    }
}

/// With listview `h` in hand: capture then hide visible icons, show hidden ones.
pub open spec fn proceed_spec(s: AppState, h: isize) -> (TogglePhase, AppState, ToggleAction) {
    match s.toggle_state {
        ToggleState::Visible => (TogglePhase::Capturing(h), s, ToggleAction::CaptureSnapshot(h)),
        ToggleState::Hidden => (TogglePhase::Showing(h), s, ToggleAction::ShowIcons(h)),
    }
}

/// Ends a run with state `s`, after a taskbar request if one is due.
pub open spec fn conclude_spec(s: AppState, request: Option<AutohideRequest>) -> (
    TogglePhase,
    AppState,
    ToggleAction,
) {
    match request {
        Some(r) => (TogglePhase::SettingAutohide(r), s, ToggleAction::SetAutohide(r)),
        None => (TogglePhase::Finished, s, ToggleAction::Done { save_settings: false }),
    }
}

/// Icons are hidden: in combined mode the taskbar follows unless already
/// app-controlled.
pub open spec fn after_hidden_spec(s: AppState) -> (TogglePhase, AppState, ToggleAction) {
    let s2 = AppState { toggle_state: ToggleState::Hidden, ..s };
    conclude_spec(
        s2,
        if s2.settings.hide_taskbar_with_icons && !s2.taskbar_hidden {
            Some(enable_request())
        } else {
            None
        },
    )
}

/// Icons are shown and positions restored: in combined mode the taskbar
/// follows if app-controlled.
pub open spec fn after_shown_spec(s: AppState) -> (TogglePhase, AppState, ToggleAction) {
    let s2 = icons_shown(s);
    conclude_spec(
        s2,
        if s2.settings.hide_taskbar_with_icons && s2.taskbar_hidden {
            Some(force_off_request())
        } else {
            None
        },
    )
}

/// One transition of the toggle machine. An event the phase is not waiting
/// for changes nothing and asks again for the pending action.
pub open spec fn step_spec(phase: TogglePhase, s: AppState, event: ToggleEvent) -> (
    TogglePhase,
    AppState,
    ToggleAction,
) {
    match (phase, event) {
        (TogglePhase::CheckingWindow(h), ToggleEvent::WindowChecked(alive)) => if alive {
            proceed_spec(s, h)
        } else {
            (TogglePhase::FindingListview, s, ToggleAction::FindListview)
        },
        (TogglePhase::FindingListview, ToggleEvent::ListviewFound(found)) => match found {
            Some(h) => proceed_spec(AppState { listview_hwnd: Some(h), ..s }, h),
            None => (TogglePhase::Abandoned, s, ToggleAction::ListviewMissing),
        },
        (TogglePhase::Capturing(h), ToggleEvent::SnapshotCaptured(snap)) => (
            TogglePhase::Hiding(h),
            match snap {
                Some(x) => AppState { snapshot: Some(x), ..s },
                None => s,
            },
            ToggleAction::HideIcons(h),
        ),
        (TogglePhase::Hiding(_), ToggleEvent::IconsHidden) => after_hidden_spec(s),
        (TogglePhase::Showing(h), ToggleEvent::IconsShown) => if s.snapshot is Some {
            (TogglePhase::Restoring(h), s, ToggleAction::RestorePositions(h))
        } else {
            after_shown_spec(s)
        },
        (TogglePhase::Restoring(_), ToggleEvent::PositionsRestored) => after_shown_spec(s),
        (TogglePhase::SettingAutohide(req), ToggleEvent::AutohideSet(result)) => (
            TogglePhase::Finished,
            after_autohide(s, req, result),
            ToggleAction::Done { save_settings: autohide_saves(req, result) },
        ),
        _ => (phase, s, pending(phase)),
    }
}

fn proceed(state: &AppState, h: isize) -> (r: (TogglePhase, ToggleAction))
    ensures
        (r.0, *state, r.1) == proceed_spec(*state, h),
{
    match state.toggle_state {
        ToggleState::Visible => (TogglePhase::Capturing(h), ToggleAction::CaptureSnapshot(h)),
        ToggleState::Hidden => (TogglePhase::Showing(h), ToggleAction::ShowIcons(h)),
    }
}

fn conclude(request: Option<AutohideRequest>) -> (r: (TogglePhase, ToggleAction))
    ensures
        forall|s: AppState| #![auto] (r.0, s, r.1) == conclude_spec(s, request),
{
    match request {
        Some(req) => (TogglePhase::SettingAutohide(req), ToggleAction::SetAutohide(req)),
        None => (TogglePhase::Finished, ToggleAction::Done { save_settings: false }),
    }
}

fn after_hidden(state: &mut AppState) -> (r: (TogglePhase, ToggleAction))
    ensures
        (r.0, *final(state), r.1) == after_hidden_spec(*old(state)),
{
    state.toggle_state = ToggleState::Hidden;
    let request = if state.settings.hide_taskbar_with_icons {
        state.enable_taskbar_request()
    } else {
        None
    };
    conclude(request)
}

fn after_shown(state: &mut AppState) -> (r: (TogglePhase, ToggleAction))
    ensures
        (r.0, *final(state), r.1) == after_shown_spec(*old(state)),
{
    state.mark_icons_shown();
    let request = if state.settings.hide_taskbar_with_icons {
        state.restore_taskbar_request()
    } else {
        None
    };
    conclude(request)
}

impl ToggleRun {
    /// Starts a toggle of the icons (and, in combined mode, the taskbar).
    pub fn begin(state: &AppState) -> (r: (ToggleRun, ToggleAction))
        ensures
            (r.0.phase, r.1) == begin_spec(*state),
            r.0.started_from == state.toggle_state,
    {
        let (phase, action) = match state.listview_hwnd {
            Some(h) => (TogglePhase::CheckingWindow(h), ToggleAction::CheckWindow(h)),
            None => (TogglePhase::FindingListview, ToggleAction::FindListview),
        };
        (ToggleRun { phase, started_from: state.toggle_state }, action)
    }

    /// Takes in what happened when the last action was performed; updates
    /// the state and returns the next action.
    pub fn step(&mut self, state: &mut AppState, event: ToggleEvent) -> (r: ToggleAction)
        ensures
            (final(self).phase, *final(state), r) == step_spec(old(self).phase, *old(state), event),
            final(self).started_from == old(self).started_from,
    {
        let (phase, action) = match (self.phase, event) {
            (TogglePhase::CheckingWindow(h), ToggleEvent::WindowChecked(alive)) => {
                if alive {
                    proceed(state, h)
                } else {
                    (TogglePhase::FindingListview, ToggleAction::FindListview)
                }
            },
            (TogglePhase::FindingListview, ToggleEvent::ListviewFound(found)) => match found {
                Some(h) => {
                    state.listview_hwnd = Some(h);
                    proceed(state, h)
                },
                None => (TogglePhase::Abandoned, ToggleAction::ListviewMissing),
            },
            (TogglePhase::Capturing(h), ToggleEvent::SnapshotCaptured(snap)) => {
                if let Some(x) = snap {
                    state.snapshot = Some(x);
                }
                (TogglePhase::Hiding(h), ToggleAction::HideIcons(h))
            },
            (TogglePhase::Hiding(_), ToggleEvent::IconsHidden) => after_hidden(state),
            (TogglePhase::Showing(h), ToggleEvent::IconsShown) => {
                if state.snapshot.is_some() {
                    (TogglePhase::Restoring(h), ToggleAction::RestorePositions(h))
                } else {
                    after_shown(state)
                }
            },
            (TogglePhase::Restoring(_), ToggleEvent::PositionsRestored) => after_shown(state),
            (TogglePhase::SettingAutohide(req), ToggleEvent::AutohideSet(result)) => {
                let save = state.apply_autohide_result(req, result);
                (TogglePhase::Finished, ToggleAction::Done { save_settings: save })
            },
            (phase, _) => (phase, pending_action(phase)),
        };
        self.phase = phase;
        action
    }
}

fn pending_action(phase: TogglePhase) -> (r: ToggleAction)
    ensures
        r == pending(phase),
{
    match phase {
        TogglePhase::CheckingWindow(h) => ToggleAction::CheckWindow(h),
        TogglePhase::FindingListview => ToggleAction::FindListview,
        TogglePhase::Capturing(h) => ToggleAction::CaptureSnapshot(h),
        TogglePhase::Hiding(h) => ToggleAction::HideIcons(h),
        TogglePhase::Showing(h) => ToggleAction::ShowIcons(h),
        TogglePhase::Restoring(h) => ToggleAction::RestorePositions(h),
        TogglePhase::SettingAutohide(r) => ToggleAction::SetAutohide(r),
        TogglePhase::Finished => ToggleAction::Done { save_settings: false },
        TogglePhase::Abandoned => ToggleAction::ListviewMissing,
    }
}

/// The icon state a completed toggle leads to.
pub open spec fn flipped(t: ToggleState) -> ToggleState {
    match t {
        ToggleState::Visible => ToggleState::Hidden,
        ToggleState::Hidden => ToggleState::Visible,
    }
}

/// The taskbar half of the state invariant.
pub open spec fn taskbar_wf(s: AppState) -> bool {
    s.taskbar_hidden ==> {
        &&& s.taskbar_original_state is Some
        &&& s.settings.taskbar_original_state == s.taskbar_original_state
    }
}

/// What holds at every phase of a run that began from icon state `from`.
pub open spec fn run_inv(phase: TogglePhase, s: AppState, from: ToggleState) -> bool {
    match phase {
        TogglePhase::CheckingWindow(_) | TogglePhase::FindingListview | TogglePhase::Abandoned => {
            s.wf() && s.toggle_state == from
        },
        TogglePhase::Capturing(_) => s.wf() && s.toggle_state == from && from == ToggleState::Visible,
        TogglePhase::Hiding(_) => {
            taskbar_wf(s) && s.toggle_state == ToggleState::Visible && from == ToggleState::Visible
        },
        TogglePhase::Showing(_) | TogglePhase::Restoring(_) => {
            s.wf() && s.toggle_state == ToggleState::Hidden && from == ToggleState::Hidden
        },
        TogglePhase::SettingAutohide(req) => {
            &&& s.wf()
            &&& s.toggle_state == flipped(from)
            &&& s.settings.hide_taskbar_with_icons
            &&& (req == enable_request() && !s.taskbar_hidden) || (req == force_off_request()
                && s.taskbar_hidden)
        },
        TogglePhase::Finished => s.wf() && s.toggle_state == flipped(from),
    }
}

/// A run begun on a well-formed state satisfies the run invariant.
pub proof fn lemma_begin_establishes_invariant(s: AppState)
    requires
        s.wf(),
    ensures
        run_inv(begin_spec(s).0, s, s.toggle_state),
{
}

/// Every step keeps the run invariant, whatever the caller reports. Hence a
/// run that reaches `Finished` has flipped the icon state and left a
/// well-formed state, a run that is `Abandoned` has left the icon state as
/// it was, and the taskbar is only ever touched in combined mode.
pub proof fn lemma_step_keeps_invariant(
    phase: TogglePhase,
    s: AppState,
    from: ToggleState,
    event: ToggleEvent,
)
    requires
        run_inv(phase, s, from),
    ensures
        ({
            let (phase2, s2, action) = step_spec(phase, s, event);
            &&& run_inv(phase2, s2, from)
            &&& action is SetAutohide ==> s.settings.hide_taskbar_with_icons
            &&& phase2 == TogglePhase::Finished ==> s2.wf() && s2.toggle_state == flipped(from)
            &&& phase2 == TogglePhase::Abandoned ==> s2.toggle_state == from
        }),
{
}

/// A hide-then-show cycle in combined mode: icons end visible with no
/// snapshot left, the taskbar is released, and the original taskbar state
/// captured when hiding stays persisted for exit restoration.
pub proof fn lemma_combined_cycle(
    s: AppState,
    h: isize,
    snap: DesktopSnapshot,
    original: u32,
    off_result: Option<u32>,
)
    requires
        s.wf(),
        s.toggle_state == ToggleState::Visible,
        !s.taskbar_hidden,
        s.settings.hide_taskbar_with_icons,
        s.listview_hwnd == Some(h),
    ensures
        ({
            let (p0, a0) = begin_spec(s);
            let (p1, s1, a1) = step_spec(p0, s, ToggleEvent::WindowChecked(true));
            let (p2, s2, a2) = step_spec(p1, s1, ToggleEvent::SnapshotCaptured(Some(snap)));
            let (p3, s3, a3) = step_spec(p2, s2, ToggleEvent::IconsHidden);
            let (p4, s4, a4) = step_spec(p3, s3, ToggleEvent::AutohideSet(Ok(Some(original))));
            let (q0, b0) = begin_spec(s4);
            let (q1, t1, b1) = step_spec(q0, s4, ToggleEvent::WindowChecked(true));
            let (q2, t2, b2) = step_spec(q1, t1, ToggleEvent::IconsShown);
            let (q3, t3, b3) = step_spec(q2, t2, ToggleEvent::PositionsRestored);
            let (q4, t4, b4) = step_spec(q3, t3, ToggleEvent::AutohideSet(Ok(off_result)));
            &&& a0 == ToggleAction::CheckWindow(h)
            &&& a1 == ToggleAction::CaptureSnapshot(h)
            &&& a2 == ToggleAction::HideIcons(h)
            &&& a3 == ToggleAction::SetAutohide(AutohideRequest { enable: true, original_state: None })
            &&& a4 == ToggleAction::Done { save_settings: true }
            &&& s4.toggle_state == ToggleState::Hidden
            &&& s4.snapshot == Some(snap)
            &&& s4.taskbar_hidden
            &&& s4.taskbar_original_state == Some(original)
            &&& s4.settings.taskbar_original_state == Some(original)
            &&& b1 == ToggleAction::ShowIcons(h)
            &&& b2 == ToggleAction::RestorePositions(h)
            &&& b3 == ToggleAction::SetAutohide(AutohideRequest { enable: false, original_state: Some(0u32) })
            &&& b4 == ToggleAction::Done { save_settings: false }
            &&& q4 == TogglePhase::Finished
            &&& t4.toggle_state == ToggleState::Visible
            &&& t4.snapshot is None
            &&& !t4.taskbar_hidden
            &&& t4.taskbar_original_state is None
            &&& t4.settings.taskbar_original_state == Some(original)
        }),
{
}

/// The icon half of the state invariant: visible icons have no snapshot.
pub open spec fn icons_wf(s: AppState) -> bool {
    s.toggle_state == ToggleState::Visible ==> s.snapshot is None
}

/// What holds of the icon state and the snapshot at every phase of a run,
/// whatever the taskbar state.
pub open spec fn snapshot_inv(phase: TogglePhase, s: AppState) -> bool {
    match phase {
        TogglePhase::Capturing(_) => s.toggle_state == ToggleState::Visible && s.snapshot is None,
        TogglePhase::Hiding(_) => s.toggle_state == ToggleState::Visible,
        TogglePhase::Showing(_) | TogglePhase::Restoring(_) => s.toggle_state == ToggleState::Hidden,
        _ => icons_wf(s),
    }
}

/// A run begun on a state whose visible icons have no snapshot satisfies
/// the snapshot invariant.
pub proof fn lemma_begin_establishes_snapshot_invariant(s: AppState)
    requires
        icons_wf(s),
    ensures
        snapshot_inv(begin_spec(s).0, s),
{
}

/// Every step keeps the snapshot invariant, on every state and whatever the
/// caller reports. Hence after a run that ends (finished, or abandoned
/// because no listview was found) visible icons have no snapshot.
pub proof fn lemma_step_keeps_snapshot_invariant(phase: TogglePhase, s: AppState, event: ToggleEvent)
    requires
        snapshot_inv(phase, s),
    ensures
        ({
            let (phase2, s2, action) = step_spec(phase, s, event);
            &&& snapshot_inv(phase2, s2)
            &&& (phase2 == TogglePhase::Finished || phase2 == TogglePhase::Abandoned) ==> icons_wf(s2)
        }),
{
}

/// The phase and state after the caller reports `events` in turn.
pub open spec fn run_events(phase: TogglePhase, s: AppState, events: Seq<ToggleEvent>) -> (
    TogglePhase,
    AppState,
)
    decreases events.len(),
{
    if events.len() == 0 {
        (phase, s)
    } else {
        let (phase2, s2, _) = step_spec(phase, s, events[0]);
        run_events(phase2, s2, events.drop_first())
    }
}

proof fn lemma_run_events_keeps_snapshot_invariant(
    phase: TogglePhase,
    s: AppState,
    events: Seq<ToggleEvent>,
)
    requires
        snapshot_inv(phase, s),
    ensures
        snapshot_inv(run_events(phase, s, events).0, run_events(phase, s, events).1),
    decreases events.len(),
{
    if events.len() > 0 {
        lemma_step_keeps_snapshot_invariant(phase, s, events[0]);
        let (phase2, s2, _) = step_spec(phase, s, events[0]);
        lemma_run_events_keeps_snapshot_invariant(phase2, s2, events.drop_first());
    }
}

/// A whole toggle run, whatever the caller reports along the way: begun on
/// a state whose visible icons have no snapshot, it ends (finished, or
/// abandoned because no listview was found) with visible icons having no
/// snapshot.
pub proof fn lemma_toggle_run_keeps_snapshot_rule(s: AppState, events: Seq<ToggleEvent>)
    requires
        icons_wf(s),
    ensures
        ({
            let (phase, s2) = run_events(begin_spec(s).0, s, events);
            &&& snapshot_inv(phase, s2)
            &&& (phase == TogglePhase::Finished || phase == TogglePhase::Abandoned) ==> icons_wf(s2)
        }),
{
    lemma_run_events_keeps_snapshot_invariant(begin_spec(s).0, s, events);
}

/// In combined mode, showing the icons always releases an app-controlled
/// taskbar, whether or not a snapshot of the icon positions exists: after
/// the icons are shown (and their positions restored, when asked for) the
/// run asks to switch auto-hide off (restoring always-on-top only), with
/// the icons already visible and no snapshot left; once the system accepts,
/// the run finishes with the taskbar released and its persisted original
/// kept.
pub proof fn lemma_combined_show_releases_taskbar(s: AppState, h: isize, answer: Option<u32>)
    requires
        s.wf(),
        s.settings.hide_taskbar_with_icons,
        s.toggle_state == ToggleState::Hidden,
        s.taskbar_hidden,
        s.listview_hwnd == Some(h),
    ensures
        ({
            let off = AutohideRequest { enable: false, original_state: Some(0u32) };
            let (p0, a0) = begin_spec(s);
            let (p1, s1, a1) = step_spec(p0, s, ToggleEvent::WindowChecked(true));
            let (p2, s2, a2) = step_spec(p1, s1, ToggleEvent::IconsShown);
            let (p3, s3, a3) = if s.snapshot is Some {
                step_spec(p2, s2, ToggleEvent::PositionsRestored)
            } else {
                (p2, s2, a2)
            };
            let (p4, s4, a4) = step_spec(p3, s3, ToggleEvent::AutohideSet(Ok(answer)));
            &&& a0 == ToggleAction::CheckWindow(h)
            &&& a1 == ToggleAction::ShowIcons(h)
            &&& (s.snapshot is Some ==> a2 == ToggleAction::RestorePositions(h))
            &&& a3 == ToggleAction::SetAutohide(off)
            &&& s3.toggle_state == ToggleState::Visible
            &&& s3.snapshot is None
            &&& s3.taskbar_hidden
            &&& a4 == ToggleAction::Done { save_settings: false }
            &&& p4 == TogglePhase::Finished
            &&& !s4.taskbar_hidden
            &&& s4.taskbar_original_state is None
            &&& s4.settings.taskbar_original_state == s.settings.taskbar_original_state
            &&& s4.toggle_state == ToggleState::Visible
        }),
{
}

} // verus!
