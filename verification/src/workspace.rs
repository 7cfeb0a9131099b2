//! Workspace commands: resolving a workspace target, activating and
//! deactivating workspaces, and focusing a workspace.

use vstd::prelude::*;

use crate::error::WmError;
use crate::model::{
    config_index_by_name, first_window_in_workspace, focused_workspace_index, monitor_index_by_id,
    monitor_index_of_container, opt_string_view, opt_usize_int, workspace_has_windows,
    workspace_index_by_id, workspace_index_by_name, Monitor, PendingSyncView, Rect, StateView,
    UserConfig, UserConfigView, WmEvent, WmState, Workspace, WorkspaceConfigView, WorkspaceView,
};

verus! {

/// A direction on the screen.
#[derive(Clone, Copy, Debug, PartialEq, Eq, Structural)]
pub enum Direction {
    Left,
    Right,
    Up,
    Down,
}

/// The workspace that a command acts on.
#[derive(Debug)]
pub enum WorkspaceTarget {
    /// The workspace with this name.
    Name(String),
    /// The most recently focused workspace.
    Recent,
    /// The workspace after the origin workspace in config order.
    Next,
    /// The workspace before the origin workspace in config order.
    Previous,
    /// The workspace displayed on the nearest monitor in this direction.
    Direction(Direction),
}

pub enum WorkspaceTargetView {
    Name(Seq<char>),
    Recent,
    Next,
    Previous,
    Direction(Direction),
}

impl View for WorkspaceTarget {
    type V = WorkspaceTargetView;

    open spec fn view(&self) -> WorkspaceTargetView {
        match self {
            WorkspaceTarget::Name(n) => WorkspaceTargetView::Name(n@),
            WorkspaceTarget::Recent => WorkspaceTargetView::Recent,
            WorkspaceTarget::Next => WorkspaceTargetView::Next,
            WorkspaceTarget::Previous => WorkspaceTargetView::Previous,
            WorkspaceTarget::Direction(d) => WorkspaceTargetView::Direction(*d),
        }
    }
}

// Monitors in a direction.

/// `r` lies in direction `d` of `origin`: beyond its edge and sharing a row
/// (left, right) or a column (up, down) with it.
pub open spec fn rect_in_direction(origin: Rect, r: Rect, d: Direction) -> bool {
    match d {
        Direction::Right => r.left > origin.left && r.overlaps_y(origin),
        Direction::Left => r.left < origin.left && r.overlaps_y(origin),
        Direction::Up => r.top < origin.top && r.overlaps_x(origin),
        Direction::Down => r.top > origin.top && r.overlaps_x(origin),
    }
}

/// `a` is strictly nearer than `b` in direction `d`.
pub open spec fn rect_nearer(a: Rect, b: Rect, d: Direction) -> bool {
    match d {
        Direction::Right => a.left < b.left,
        Direction::Left => a.left > b.left,
        Direction::Up => a.top > b.top,
        Direction::Down => a.top < b.top,
    }
}

/// Among the first `n` monitors, the first of the nearest ones in direction
/// `d` of `origin`.
pub open spec fn nearest_monitor_upto(ms: Seq<Monitor>, origin: Rect, d: Direction, n: int) -> Option<int>
    decreases n,
{
    if n <= 0 {
        None
    } else {
        let prev = nearest_monitor_upto(ms, origin, d, n - 1);
        let c = n - 1;
        if !rect_in_direction(origin, ms[c].rect, d) {
            prev
        } else {
            match prev {
                None => Some(c),
                Some(b) => if rect_nearer(ms[c].rect, ms[b].rect, d) {
                    Some(c)
                } else {
                    prev
                },
            }
        }
    }
}

/// The monitor nearest to monitor `origin` in direction `d`.
pub open spec fn monitor_in_direction_index(s: StateView, origin: int, d: Direction) -> Option<int> {
    nearest_monitor_upto(s.monitors, s.monitors[origin].rect, d, s.monitors.len() as int)
}

fn in_direction(origin: &Rect, r: &Rect, d: Direction) -> (b: bool)
    ensures
        b == rect_in_direction(*origin, *r, d),
{
    match d {
        Direction::Right => r.left > origin.left && r.has_overlap_y(origin),
        Direction::Left => r.left < origin.left && r.has_overlap_y(origin),
        Direction::Up => r.top < origin.top && r.has_overlap_x(origin),
        Direction::Down => r.top > origin.top && r.has_overlap_x(origin),
    }
}

fn nearer(a: &Rect, b: &Rect, d: Direction) -> (r: bool)
    ensures
        r == rect_nearer(*a, *b, d),
{
    match d {
        Direction::Right => a.left < b.left,
        Direction::Left => a.left > b.left,
        Direction::Up => a.top > b.top,
        Direction::Down => a.top < b.top,
    }
}

impl WmState {
    /// Index of the monitor nearest to monitor `origin` in direction `d`.
    pub fn monitor_in_direction(&self, origin: usize, d: Direction) -> (r: Option<usize>)
        requires
            origin < self.monitors.len(),
        ensures
            opt_usize_int(r) == monitor_in_direction_index(self@, origin as int, d),
            r matches Some(i) ==> i < self.monitors.len(),
    {
        let origin_rect = self.monitors[origin].rect;
        let mut best: Option<usize> = None;
        let mut i: usize = 0;
        while i < self.monitors.len()
            invariant
                i <= self.monitors.len(),
                origin_rect == self@.monitors[origin as int].rect,
                opt_usize_int(best) == nearest_monitor_upto(self@.monitors, origin_rect, d, i as int),
                best matches Some(b) ==> b < i,
            decreases self.monitors.len() - i,
        {
            let r = self.monitors[i].rect;
            if in_direction(&origin_rect, &r, d) {
                match best {
                    None => {
                        best = Some(i);
                    },
                    Some(b) => {
                        if nearer(&r, &self.monitors[b].rect, d) {
                            best = Some(i);
                        }
                    },
                }
            }
            i = i + 1;
        }
        best
    }
}

// Resolving a target.

/// The config entry after entry `k`, wrapping to the first.
pub open spec fn next_config_index(c: UserConfigView, k: int) -> int {
    if k + 1 < c.workspaces.len() {
        k + 1
    } else {
        0
    }
}

/// The config entry before entry `k`, wrapping to the last.
pub open spec fn previous_config_index(c: UserConfigView, k: int) -> int {
    if k > 0 {
        k - 1
    } else {
        c.workspaces.len() - 1
    }
}

/// The name of a config entry and the index of the active workspace of that
/// name.
pub open spec fn config_entry_target(s: StateView, c: UserConfigView, k: int) -> (Option<Seq<char>>, Option<int>) {
    let name = c.workspaces[k].name;
    (Some(name), workspace_index_by_name(s, name))
}

/// The name of the workspace that a target names, when it names one, and
/// the index of that workspace, when it is active. `origin` is the index of
/// the workspace that the target is taken from.
pub open spec fn workspace_by_target_result(
    s: StateView,
    origin: int,
    target: WorkspaceTargetView,
    c: UserConfigView,
) -> (Option<Seq<char>>, Option<int>) {
    match target {
        WorkspaceTargetView::Name(name) => (Some(name), workspace_index_by_name(s, name)),
        WorkspaceTargetView::Recent => match s.recent_workspace_name {
            Some(name) => (Some(name), workspace_index_by_name(s, name)),
            None => (None, None),
        },
        WorkspaceTargetView::Next => match config_index_by_name(c, s.workspaces[origin].name) {
            Some(k) => config_entry_target(s, c, next_config_index(c, k)),
            None => (None, None),
        },
        WorkspaceTargetView::Previous => match config_index_by_name(c, s.workspaces[origin].name) {
            Some(k) => config_entry_target(s, c, previous_config_index(c, k)),
            None => (None, None),
        },
        WorkspaceTargetView::Direction(d) => match monitor_index_by_id(s, s.workspaces[origin].monitor_id) {
            None => (None, None),
            Some(m) => match monitor_in_direction_index(s, m, d) {
                None => (None, None),
                Some(m2) => match s.monitors[m2].displayed_workspace {
                    None => (None, None),
                    Some(wid) => match workspace_index_by_id(s, wid) {
                        None => (None, None),
                        Some(i) => (Some(s.workspaces[i].name), Some(i)),
                    },
                },
            },
        },
    }
}

pub open spec fn opt_pair_view(r: (Option<String>, Option<usize>)) -> (Option<Seq<char>>, Option<int>) {
    (opt_string_view(r.0), opt_usize_int(r.1))
}

impl WmState {
    fn config_entry_target(&self, config: &UserConfig, k: usize) -> (r: (Option<String>, Option<usize>))
        requires
            k < config.workspaces.len(),
        ensures
            opt_pair_view(r) == config_entry_target(self@, config@, k as int),
            r.1 matches Some(i) ==> i < self.workspaces.len(),
    {
        let name = config.workspaces[k].name.clone();
        let found = self.workspace_by_name(&name);
        (Some(name), found)
    }

    /// The name of the workspace that `target` names, taken from the
    /// workspace at index `origin`, and the index of that workspace when it
    /// is active.
    pub fn workspace_by_target(&self, origin: usize, target: WorkspaceTarget, config: &UserConfig) -> (r: (
        Option<String>,
        Option<usize>,
    ))
        requires
            origin < self.workspaces.len(),
        ensures
            opt_pair_view(r) == workspace_by_target_result(self@, origin as int, target@, config@),
            r.1 matches Some(i) ==> i < self.workspaces.len(),
    {
        match target {
            WorkspaceTarget::Name(name) => {
                let found = self.workspace_by_name(&name);
                (Some(name), found)
            },
            WorkspaceTarget::Recent => match &self.recent_workspace_name {
                Some(name) => {
                    let found = self.workspace_by_name(name);
                    (Some(name.clone()), found)
                },
                None => (None, None),
            },
            WorkspaceTarget::Next => match config.workspace_config_by_name(&self.workspaces[origin].name) {
                Some(k) => {
                    let next = if k + 1 < config.workspaces.len() {
                        k + 1
                    } else {
                        0
                    };
                    self.config_entry_target(config, next)
                },
                None => (None, None),
            },
            WorkspaceTarget::Previous => match config.workspace_config_by_name(&self.workspaces[origin].name) {
                Some(k) => {
                    let previous = if k > 0 {
                        k - 1
                    } else {
                        config.workspaces.len() - 1
                    };
                    self.config_entry_target(config, previous)
                },
                None => (None, None),
            },
            WorkspaceTarget::Direction(d) => match self.monitor_by_id(self.workspaces[origin].monitor_id) {
                None => (None, None),
                Some(m) => match self.monitor_in_direction(m, d) {
                    None => (None, None),
                    Some(m2) => match self.monitors[m2].displayed_workspace {
                        None => (None, None),
                        Some(wid) => match self.workspace_by_id(wid) {
                            None => (None, None),
                            Some(i) => (Some(self.workspaces[i].name.clone()), Some(i)),
                        },
                    },
                },
            },
        }
    }
}

// Activating and deactivating workspaces.

/// The monitor that receives a newly activated workspace: the one that the
/// config entry binds it to, else the monitor of the focused container.
pub open spec fn activation_monitor_index(s: StateView, entry: WorkspaceConfigView) -> Option<int> {
    let bound = match entry.bind_to_monitor {
        Some(mi) => if (mi as int) < s.monitors.len() {
            Some(mi as int)
        } else {
            None
        },
        None => None,
    };
    match bound {
        Some(m) => Some(m),
        None => match s.focused_container {
            Some(f) => monitor_index_of_container(s, f),
            None => None,
        },
    }
}

/// The state with a new workspace on monitor `m`. It gets the next free
/// container id; the monitor displays it when it displayed nothing before.
pub open spec fn with_activated_workspace(s: StateView, name: Seq<char>, keep_alive: bool, m: int) -> StateView {
    let id = s.next_container_id;
    let mon = s.monitors[m];
    StateView {
        workspaces: s.workspaces.push(WorkspaceView { id, name, keep_alive, monitor_id: mon.id }),
        monitors: if mon.displayed_workspace is None {
            s.monitors.update(m, Monitor { displayed_workspace: Some(id), ..mon })
        } else {
            s.monitors
        },
        events: s.events.push(WmEvent::WorkspaceActivated { workspace_id: id }),
        next_container_id: (id + 1) as u64,
        ..s
    }
}

/// What activating the workspace named `name` gives: an error when a
/// workspace of that name is active, when the config has no entry of that
/// name, or when no monitor can hold it; else the state with it.
pub open spec fn activate_workspace_result(s: StateView, name: Seq<char>, c: UserConfigView) -> Result<StateView, WmError> {
    if workspace_index_by_name(s, name) is Some {
        Err(WmError::WorkspaceNotFound)
    } else {
        match config_index_by_name(c, name) {
            None => Err(WmError::WorkspaceNotFound),
            Some(k) => match activation_monitor_index(s, c.workspaces[k]) {
                None => Err(WmError::NoTargetMonitor),
                Some(m) => Ok(with_activated_workspace(s, name, c.workspaces[k].keep_alive, m)),
            },
        }
    }
}

/// The state without the workspace at index `i`.
pub open spec fn with_deactivated_workspace(s: StateView, i: int) -> StateView {
    StateView {
        workspaces: s.workspaces.remove(i),
        events: s.events.push(WmEvent::WorkspaceDeactivated { workspace_id: s.workspaces[i].id }),
        ..s
    }
}

/// Activates the workspace of the config entry named `name`.
pub fn activate_workspace(name: &String, state: &mut WmState, config: &UserConfig) -> (r: Result<(), WmError>)
    requires
        old(state).next_container_id < u64::MAX,
    ensures
        match activate_workspace_result(old(state)@, name@, config@) {
            Ok(s) => r is Ok && final(state)@ == s,
            Err(e) => r == Err::<(), WmError>(e) && final(state)@ == old(state)@,
        },
{
    if state.workspace_by_name(name).is_some() {
        return Err(WmError::WorkspaceNotFound);
    }
    let k = match config.workspace_config_by_name(name) {
        Some(k) => k,
        None => {
            return Err(WmError::WorkspaceNotFound);
        },
    };
    let entry = &config.workspaces[k];
    let bound = match entry.bind_to_monitor {
        Some(mi) => if mi < state.monitors.len() {
            Some(mi)
        } else {
            None
        },
        None => None,
    };
    let m = match bound {
        Some(m) => m,
        None => {
            let focused = match state.focused_container {
                Some(f) => state.monitor_of_container(f),
                None => None,
            };
            match focused {
                Some(m) => m,
                None => {
                    return Err(WmError::NoTargetMonitor);
                },
            }
        },
    };
    let ghost s0 = state@;
    let id = state.next_container_id;
    let mon = state.monitors[m];
    state.workspaces.push(Workspace { id, name: name.clone(), keep_alive: entry.keep_alive, monitor_id: mon.id });
    if mon.displayed_workspace.is_none() {
        state.monitors.set(m, Monitor { displayed_workspace: Some(id), ..mon });
    }
    state.events.push(WmEvent::WorkspaceActivated { workspace_id: id });
    state.next_container_id = id + 1;
    assert(state@.workspaces =~= with_activated_workspace(s0, name@, entry.keep_alive, m as int).workspaces);
    Ok(())
}

/// Removes the workspace at index `i`.
pub fn deactivate_workspace(i: usize, state: &mut WmState)
    requires
        i < old(state).workspaces.len(),
    ensures
        final(state)@ == with_deactivated_workspace(old(state)@, i as int),
{
    let ghost s0 = state@;
    let ws = state.workspaces.remove(i);
    state.events.push(WmEvent::WorkspaceDeactivated { workspace_id: ws.id });
    assert(state@.workspaces =~= s0.workspaces.remove(i as int));
    assert(state@ == with_deactivated_workspace(s0, i as int));
}

// Focusing a workspace.

/// The container that gets focus when workspace `t` is focused: its most
/// recently focused window, else the workspace itself.
pub open spec fn container_to_focus(s: StateView, t: int) -> u64 {
    match first_window_in_workspace(s, s.workspaces[t].id) {
        Some(k) => s.windows[k].id,
        None => s.workspaces[t].id,
    }
}

/// What focusing the active workspace at index `t` gives, `recent` being the
/// name of the workspace focused before.
///
/// The workspace is displayed on its monitor and its last focused container
/// gets focus; focus is marked unsynced and a focus change, a cursor jump
/// and a redraw of both workspaces are queued. The workspace that the
/// monitor displayed before is removed when it is another one, is not kept
/// alive, and holds no window.
pub open spec fn focus_active_workspace_result(s: StateView, t: int, recent: Seq<char>) -> (StateView, Result<(), WmError>) {
    let ws = s.workspaces[t];
    match monitor_index_by_id(s, ws.monitor_id) {
        None => (s, Err(WmError::NoDisplayedWorkspace)),
        Some(m) => match s.monitors[m].displayed_workspace {
            None => (s, Err(WmError::NoDisplayedWorkspace)),
            Some(did) => match workspace_index_by_id(s, did) {
                None => (s, Err(WmError::NoDisplayedWorkspace)),
                Some(d) => {
                    let s1 = with_focus_switched(s, t, m, did, recent);
                    (if removes_displayed_workspace(s, t, d) {
                        with_deactivated_workspace(s1, d)
                    } else {
                        s1
                    }, Ok(()))
                },
            },
        },
    }
}

/// The state once workspace `t` is shown on its monitor `m` in place of the
/// workspace `did`: its last focused container has focus, focus is marked
/// unsynced, a focus change, a cursor jump and a redraw of both workspaces
/// are queued, and `recent` is the recent workspace.
pub open spec fn with_focus_switched(s: StateView, t: int, m: int, did: u64, recent: Seq<char>) -> StateView {
    StateView {
        focused_container: Some(container_to_focus(s, t)),
        monitors: s.monitors.update(m, Monitor { displayed_workspace: Some(s.workspaces[t].id), ..s.monitors[m] }),
        is_focus_synced: false,
        pending_sync: PendingSyncView {
            focus_change: true,
            cursor_jump: true,
            containers_to_redraw: s.pending_sync.containers_to_redraw.push(did).push(s.workspaces[t].id),
        },
        recent_workspace_name: Some(recent),
        ..s
    }
}

/// Whether focusing workspace `t` removes the workspace `d` that its monitor
/// displayed: `d` is another workspace, not kept alive, with no window.
pub open spec fn removes_displayed_workspace(s: StateView, t: int, d: int) -> bool {
    s.workspaces[d].id != s.workspaces[t].id && !s.workspaces[d].keep_alive && !workspace_has_windows(
        s,
        s.workspaces[d].id,
    )
}

/// What `focus_workspace` gives: the state after the command and its result.
///
/// It fails when no workspace is focused. Otherwise the target is resolved
/// from the focused workspace; a named target that is not active is
/// activated first (which may fail); a target that names nothing leaves the
/// state as it is.
pub open spec fn focus_workspace_result(s: StateView, target: WorkspaceTargetView, c: UserConfigView) -> (StateView, Result<(), WmError>) {
    match focused_workspace_index(s) {
        None => (s, Err(WmError::NoFocusedWorkspace)),
        Some(f) => {
            let recent = s.workspaces[f].name;
            let (name, found) = workspace_by_target_result(s, f, target, c);
            match found {
                Some(i) => focus_active_workspace_result(s, i, recent),
                None => match name {
                    None => (s, Ok(())),
                    Some(n) => match activate_workspace_result(s, n, c) {
                        Err(e) => (s, Err(e)),
                        Ok(s2) => match workspace_index_by_name(s2, n) {
                            Some(i) => focus_active_workspace_result(s2, i, recent),
                            None => (s2, Ok(())),
                        },
                    },
                },
            }
        },
    }
}

fn focus_active_workspace(t: usize, recent: String, state: &mut WmState) -> (r: Result<(), WmError>)
    requires
        t < old(state).workspaces.len(),
    ensures
        (final(state)@, r) == focus_active_workspace_result(old(state)@, t as int, recent@),
{
    let ws_id = state.workspaces[t].id;
    let m = match state.monitor_by_id(state.workspaces[t].monitor_id) {
        Some(m) => m,
        None => {
            return Err(WmError::NoDisplayedWorkspace);
        },
    };
    let did = match state.monitors[m].displayed_workspace {
        Some(did) => did,
        None => {
            return Err(WmError::NoDisplayedWorkspace);
        },
    };
    let d = match state.workspace_by_id(did) {
        Some(d) => d,
        None => {
            return Err(WmError::NoDisplayedWorkspace);
        },
    };
    // Set focus to whichever window last had focus in the workspace, else
    // to the workspace itself; the workspace becomes the one its monitor
    // displays.
    let focus = match state.first_window_in_workspace(ws_id) {
        Some(k) => state.windows[k].id,
        None => ws_id,
    };
    let removes_displayed = did != ws_id && !state.workspaces[d].keep_alive
        && state.first_window_in_workspace(did).is_none();
    state.focused_container = Some(focus);
    let mon = state.monitors[m];
    state.monitors.set(m, Monitor { displayed_workspace: Some(ws_id), ..mon });
    // Native focus events can arrive asynchronously: focus is unsynced
    // until the queued focus change is carried out.
    state.is_focus_synced = false;
    state.pending_sync.queue_focus_change();
    state.pending_sync.queue_container_to_redraw(did);
    state.pending_sync.queue_container_to_redraw(ws_id);
    // Only the workspace that the monitor displayed before the switch may be
    // removed.
    if removes_displayed {
        deactivate_workspace(d, state);
    }
    // Save the previously focused workspace as recent.
    state.recent_workspace_name = Some(recent);
    state.pending_sync.queue_cursor_jump();
    Ok(())
}

/// Focuses a workspace by a given target.
///
/// The target is a workspace name, the most recently focused workspace, the
/// next or previous workspace, or the workspace in a given direction from
/// the currently focused workspace. The workspace is activated if it isn't
/// already active.
pub fn focus_workspace(target: WorkspaceTarget, state: &mut WmState, config: &UserConfig) -> (r: Result<(), WmError>)
    requires
        old(state).next_container_id < u64::MAX,
    ensures
        (final(state)@, r) == focus_workspace_result(old(state)@, target@, config@),
{
    let f = match state.focused_workspace() {
        Some(f) => f,
        None => {
            return Err(WmError::NoFocusedWorkspace);
        },
    };
    let recent = state.workspaces[f].name.clone();
    let (name, found) = state.workspace_by_target(f, target, config);
    let target_index = match found {
        Some(i) => Some(i),
        None => match name {
            Some(name) => {
                activate_workspace(&name, state, config)?;
                state.workspace_by_name(&name)
            },
            None => None,
        },
    };
    match target_index {
        Some(t) => focus_active_workspace(t, recent, state),
        None => Ok(()),
    }
}

} // verus!
