//! Handlers of window-manager events: session changes, window title
//! changes, and the window management that they call for.

use vstd::prelude::*;

use crate::error::WmError;
use crate::model::{
    focused_workspace_index, monitor_index_by_handle, opt_string_view, window_index_by_handle,
    workspace_index_by_id, PendingSyncView, StateView, Window, WindowView, WmEvent, WmState,
};
use crate::session::SessionEvent;

verus! {

// Managing windows.

/// The state with a new managed window in the workspace `workspace_id`. It
/// gets the next free container id and the last place in focus order.
pub open spec fn with_managed_window(s: StateView, handle: isize, title: Seq<char>, workspace_id: u64) -> StateView {
    StateView {
        windows: s.windows.push(WindowView { id: s.next_container_id, handle, title, workspace_id }),
        next_container_id: (s.next_container_id + 1) as u64,
        ..s
    }
}

/// What managing a window gives: the window goes to the workspace at index
/// `target`, else to the focused workspace; with neither it fails.
pub open spec fn manage_window_result(s: StateView, handle: isize, title: Seq<char>, target: Option<int>) -> Result<StateView, WmError> {
    let workspace = match target {
        Some(i) => Some(i),
        None => focused_workspace_index(s),
    };
    match workspace {
        Some(i) => Ok(with_managed_window(s, handle, title, s.workspaces[i].id)),
        None => Err(WmError::NoFocusedWorkspace),
    }
}

/// Starts managing the native window `handle` in the workspace at index
/// `target_workspace`, else in the focused workspace. Returns the new
/// window's container id.
pub fn manage_window(handle: isize, title: String, target_workspace: Option<usize>, state: &mut WmState) -> (r: Result<u64, WmError>)
    requires
        old(state).next_container_id < u64::MAX,
        target_workspace matches Some(i) ==> i < old(state).workspaces.len(),
    ensures
        match manage_window_result(old(state)@, handle, title@, opt_usize_int_of(target_workspace)) {
            Ok(s) => r == Ok::<u64, WmError>(old(state).next_container_id) && final(state)@ == s,
            Err(e) => r == Err::<u64, WmError>(e) && final(state)@ == old(state)@,
        },
{
    let workspace = match target_workspace {
        Some(i) => i,
        None => match state.focused_workspace() {
            Some(i) => i,
            None => {
                return Err(WmError::NoFocusedWorkspace);
            },
        },
    };
    let ghost s0 = state@;
    let id = state.next_container_id;
    let workspace_id = state.workspaces[workspace].id;
    state.windows.push(Window { id, handle, title, workspace_id });
    state.next_container_id = id + 1;
    assert(state@.windows =~= s0.windows.push(WindowView { id, handle, title: title@, workspace_id }));
    Ok(id)
}

pub open spec fn opt_usize_int_of(r: Option<usize>) -> Option<int> {
    match r {
        Some(i) => Some(i as int),
        None => None,
    }
}

// Session changes.

/// What the window manager does after a session event, besides what the
/// event does to the state.
#[derive(Clone, Copy, Debug, PartialEq, Eq, Structural)]
pub enum SessionChangeAction {
    /// Nothing more.
    Nothing,
    /// Re-evaluate the display settings (monitors may have changed while the
    /// session was locked or asleep), then hand the visible windows to
    /// `remanage_after_session_resume`.
    RefreshDisplaysAndRemanage,
}

/// What a session event does: lock and suspend pause the window manager,
/// unlock and resume unpause it; either way the new pause state is emitted.
pub open spec fn session_change_result(s: StateView, event: SessionEvent) -> (StateView, SessionChangeAction) {
    match event {
        SessionEvent::Locked | SessionEvent::Suspending => (
            StateView { is_paused: true, events: s.events.push(WmEvent::PauseChanged { is_paused: true }), ..s },
            SessionChangeAction::Nothing,
        ),
        SessionEvent::Unlocked | SessionEvent::Resumed => (
            StateView { is_paused: false, events: s.events.push(WmEvent::PauseChanged { is_paused: false }), ..s },
            SessionChangeAction::RefreshDisplaysAndRemanage,
        ),
    }
}

/// Handles session lock/unlock and sleep/resume events.
///
/// On lock or suspend, pauses the WM so that it does not react to windows
/// being hidden by the OS during the locked/suspended state. On unlock or
/// resume, unpauses the WM and asks for the display settings to be
/// re-evaluated and the lost windows to be managed again.
pub fn handle_session_change(event: &SessionEvent, state: &mut WmState) -> (r: SessionChangeAction)
    ensures
        (final(state)@, r) == session_change_result(old(state)@, *event),
{
    match event {
        SessionEvent::Locked | SessionEvent::Suspending => {
            state.is_paused = true;
            state.events.push(WmEvent::PauseChanged { is_paused: true });
            SessionChangeAction::Nothing
        },
        SessionEvent::Unlocked | SessionEvent::Resumed => {
            state.is_paused = false;
            state.events.push(WmEvent::PauseChanged { is_paused: false });
            SessionChangeAction::RefreshDisplaysAndRemanage
        },
    }
}

/// A window that the operating system shows, with its title and the native
/// handle of the monitor nearest to it.
#[derive(Debug)]
pub struct VisibleWindow {
    pub handle: isize,
    pub title: String,
    pub nearest_monitor: Option<isize>,
}

pub struct VisibleWindowView {
    pub handle: isize,
    pub title: Seq<char>,
    pub nearest_monitor: Option<isize>,
}

impl View for VisibleWindow {
    type V = VisibleWindowView;

    open spec fn view(&self) -> VisibleWindowView {
        VisibleWindowView { handle: self.handle, title: self.title@, nearest_monitor: self.nearest_monitor }
    }
}

/// What one visible window does after a resume: when it is not managed, it
/// is managed in the workspace displayed on its nearest monitor, if any.
pub open spec fn remanage_window_result(s: StateView, v: VisibleWindowView) -> StateView {
    if window_index_by_handle(s, v.handle) is Some {
        s
    } else {
        match v.nearest_monitor {
            None => s,
            Some(h) => match monitor_index_by_handle(s, h) {
                None => s,
                Some(m) => match s.monitors[m].displayed_workspace {
                    None => s,
                    Some(wid) => match workspace_index_by_id(s, wid) {
                        None => s,
                        Some(i) => with_managed_window(s, v.handle, v.title, wid),
                    },
                },
            },
        }
    }
}

/// The first `n` visible windows, handled in order.
pub open spec fn remanage_windows_upto(s: StateView, vs: Seq<VisibleWindowView>, n: int) -> StateView
    decreases n,
{
    if n <= 0 {
        s
    } else {
        remanage_window_result(remanage_windows_upto(s, vs, n - 1), vs[n - 1])
    }
}

/// What finishing an unlock or resume gives: the visible windows, when they
/// could be listed, are handled in order, then the whole tree is queued for
/// a redraw.
pub open spec fn session_resume_result(s: StateView, visible: Option<Seq<VisibleWindowView>>) -> StateView {
    let s1 = match visible {
        Some(vs) => remanage_windows_upto(s, vs, vs.len() as int),
        None => s,
    };
    StateView {
        pending_sync: PendingSyncView {
            containers_to_redraw: s1.pending_sync.containers_to_redraw.push(s1.root_id),
            ..s1.pending_sync
        },
        ..s1
    }
}

pub open spec fn opt_visible_view(v: Option<Vec<VisibleWindow>>) -> Option<Seq<VisibleWindowView>> {
    match v {
        Some(v) => Some(v@.map_values(|w: VisibleWindow| w@)),
        None => None,
    }
}

/// Finishes an unlock or resume once the display settings are re-evaluated.
///
/// Re-manages any visible window that was unmanaged during the lock
/// transition (window hidden events may be processed before the lock event
/// sets `is_paused`), then queues a full redraw to reposition all managed
/// windows. `visible` is `None` when the visible windows could not be
/// listed.
pub fn remanage_after_session_resume(visible: Option<Vec<VisibleWindow>>, state: &mut WmState)
    requires
        visible matches Some(v) ==> old(state).next_container_id + v.len() < u64::MAX,
    ensures
        final(state)@ == session_resume_result(old(state)@, opt_visible_view(visible)),
{
    let ghost s0 = state@;
    match visible {
        Some(visible) => {
            let ghost vs = visible@.map_values(|w: VisibleWindow| w@);
            let mut i: usize = 0;
            while i < visible.len()
                invariant
                    i <= visible.len(),
                    vs == visible@.map_values(|w: VisibleWindow| w@),
                    state@ == remanage_windows_upto(s0, vs, i as int),
                    state.next_container_id <= s0.next_container_id + i,
                    s0.next_container_id + visible.len() < u64::MAX,
                decreases visible.len() - i,
            {
                let v = &visible[i];
                assert(vs[i as int] == v@);
                assert(remanage_windows_upto(s0, vs, i + 1) == remanage_window_result(
                    remanage_windows_upto(s0, vs, i as int),
                    vs[i as int],
                ));
                if state.window_from_native(v.handle).is_none() {
                    let nearest = match v.nearest_monitor {
                        Some(h) => match state.monitor_from_native(h) {
                            Some(m) => match state.monitors[m].displayed_workspace {
                                Some(wid) => state.workspace_by_id(wid),
                                None => None,
                            },
                            None => None,
                        },
                        None => None,
                    };
                    if let Some(ws) = nearest {
                        let _ = manage_window(v.handle, v.title.clone(), Some(ws), state);
                    }
                }
                i = i + 1;
            }
        },
        None => {},
    }
    state.pending_sync.queue_container_to_redraw(state.root_id);
}

// Window title changes.

/// What the window manager does after a title change, besides what it does
/// to the state.
#[derive(Clone, Copy, Debug, PartialEq, Eq, Structural)]
pub enum TitleChangeOutcome {
    /// The window is managed but its title could not be read: nothing changed.
    TitleUnavailable,
    /// The title was updated: the window rules for title changes are to be
    /// run on this window.
    RunWindowRules { window_id: u64 },
    /// The window was not managed and now is, under this container id.
    Managed { window_id: u64 },
}

/// The title, or the empty title when it could not be read.
pub open spec fn title_or_empty(title: Option<Seq<char>>) -> Seq<char> {
    match title {
        Some(t) => t,
        None => Seq::empty(),
    }
}

/// What a title change of the native window `handle` gives, `title` being
/// its new title when it could be read.
///
/// A managed window gets the new title. A window that is not managed is
/// managed in the focused workspace: its first `manage_window` may have
/// failed while the window was still initializing.
pub open spec fn window_title_changed_result(s: StateView, handle: isize, title: Option<Seq<char>>) -> (StateView, Result<TitleChangeOutcome, WmError>) {
    match window_index_by_handle(s, handle) {
        Some(k) => match title {
            None => (s, Ok(TitleChangeOutcome::TitleUnavailable)),
            Some(t) => (
                StateView { windows: s.windows.update(k, WindowView { title: t, ..s.windows[k] }), ..s },
                Ok(TitleChangeOutcome::RunWindowRules { window_id: s.windows[k].id }),
            ),
        },
        None => match manage_window_result(s, handle, title_or_empty(title), None) {
            Ok(s2) => (s2, Ok(TitleChangeOutcome::Managed { window_id: s.next_container_id })),
            Err(e) => (s, Err(e)),
        },
    }
}

/// Handles a title change of the native window `handle`; `title` is its new
/// title, `None` when it could not be read.
pub fn handle_window_title_changed(handle: isize, title: Option<String>, state: &mut WmState) -> (r: Result<TitleChangeOutcome, WmError>)
    requires
        old(state).next_container_id < u64::MAX,
    ensures
        (final(state)@, r) == window_title_changed_result(old(state)@, handle, opt_string_view(title)),
{
    match state.window_from_native(handle) {
        Some(k) => match title {
            None => Ok(TitleChangeOutcome::TitleUnavailable),
            Some(t) => {
                let ghost s0 = state@;
                let w = &state.windows[k];
                let updated = Window { id: w.id, handle: w.handle, title: t, workspace_id: w.workspace_id };
                let id = w.id;
                state.windows.set(k, updated);
                assert(state@.windows =~= s0.windows.update(k as int, WindowView { title: t@, ..s0.windows[k as int] }));
                Ok(TitleChangeOutcome::RunWindowRules { window_id: id })
            },
        },
        None => {
            let title = match title {
                Some(t) => t,
                None => String::new(),
            };
            let id = manage_window(handle, title, None, state)?;
            Ok(TitleChangeOutcome::Managed { window_id: id })
        },
    }
}

} // verus!
