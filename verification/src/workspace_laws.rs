//! What holds of the workspace commands over all states: they keep the
//! state well formed, and focusing a workspace displays it, focuses it and
//! removes at most the workspace that its monitor displayed before.

use vstd::prelude::*;

use crate::error::WmError;
use crate::model::{
    config_index_by_name, first_window_in_workspace, focused_workspace_index, monitor_index_by_id,
    monitor_index_of_container, window_index_by_id, workspace_has_windows, workspace_index_by_name, Monitor,
    Rect, StateView, UserConfigView,
};
use crate::wellformed::{
    display_wf, has_monitor, has_workspace, lemma_config_by_name_from, lemma_has_monitor,
    lemma_monitor_by_id_from, lemma_monitor_found, lemma_monitor_of_container_in_range, lemma_window_found,
    lemma_window_in_workspace_from, lemma_workspace_by_id_from, lemma_workspace_by_name_from,
    lemma_workspace_found, monitors_wf, wf, windows_wf, workspaces_wf,
};
use crate::workspace::{
    activate_workspace_result, activation_monitor_index, container_to_focus, focus_active_workspace_result,
    focus_workspace_result, monitor_in_direction_index, nearest_monitor_upto, next_config_index,
    previous_config_index, rect_in_direction, rect_nearer, removes_displayed_workspace,
    with_activated_workspace, with_deactivated_workspace, with_focus_switched, workspace_by_target_result,
    Direction, WorkspaceTargetView,
};

verus! {

/// Activating a workspace in a well-formed state keeps it well formed and
/// appends the new workspace, under the requested name, to the workspaces;
/// windows, focus and the monitors' places stay as they were.
pub proof fn activate_workspace_keeps_wf(s: StateView, name: Seq<char>, c: UserConfigView)
    requires
        wf(s),
        s.next_container_id < u64::MAX,
        activate_workspace_result(s, name, c) is Ok,
    ensures
        ({
            let s2 = activate_workspace_result(s, name, c)->Ok_0;
            &&& wf(s2)
            &&& s2.workspaces.len() == s.workspaces.len() + 1
            &&& forall|i: int| 0 <= i < s.workspaces.len() ==> s2.workspaces[i] == s.workspaces[i]
            &&& s2.workspaces[s.workspaces.len() as int].name == name
            &&& workspace_index_by_name(s2, name) == Some(s.workspaces.len() as int)
            &&& s2.windows == s.windows
            &&& s2.focused_container == s.focused_container
            &&& s2.recent_workspace_name == s.recent_workspace_name
            &&& s2.monitors.len() == s.monitors.len()
            &&& forall|m: int| 0 <= m < s.monitors.len() ==> s2.monitors[m].id == s.monitors[m].id
        }),
{
    lemma_workspace_by_name_from(s.workspaces, name, 0);
    let k = config_index_by_name(c, name)->Some_0;
    if let Some(f) = s.focused_container {
        lemma_monitor_of_container_in_range(s, f);
    }
    let m = activation_monitor_index(s, c.workspaces[k])->Some_0;
    let s2 = with_activated_workspace(s, name, c.workspaces[k].keep_alive, m);
    let n = s.workspaces.len() as int;
    assert(s2.workspaces[n].monitor_id == s.monitors[m].id);
    assert(s2.monitors[m].id == s.monitors[m].id);
    assert(workspaces_wf(s2)) by {
        assert forall|i: int| #![trigger s2.workspaces[i]] 0 <= i < s2.workspaces.len() implies s2.workspaces[i].id
            < s2.next_container_id && has_monitor(s2, s2.workspaces[i].monitor_id) by {
            if i < n {
                let mi = choose|mi: int| 0 <= mi < s.monitors.len() && s.monitors[mi].id == s.workspaces[i].monitor_id;
                assert(s2.monitors[mi].id == s.monitors[mi].id);
            } else {
                assert(s2.monitors[m].id == s2.workspaces[i].monitor_id);
            }
        }
    }
    assert(monitors_wf(s2)) by {
        assert forall|mm: int| 0 <= mm < s2.monitors.len() implies #[trigger] display_wf(s2, mm) by {
            assert(display_wf(s, mm));
            match s2.monitors[mm].displayed_workspace {
                Some(w) => {
                    if mm == m && s.monitors[m].displayed_workspace is None {
                        assert(s2.workspaces[n].id == w);
                    } else {
                        let i = choose|i: int|
                            0 <= i < s.workspaces.len() && #[trigger] s.workspaces[i].id == w
                                && s.workspaces[i].monitor_id == s.monitors[mm].id;
                        assert(s2.workspaces[i].id == w);
                    }
                },
                None => {
                    assert(mm != m || s.monitors[m].displayed_workspace is Some);
                    assert forall|i: int| 0 <= i < s2.workspaces.len() implies #[trigger] s2.workspaces[i].monitor_id
                        != s2.monitors[mm].id by {
                        if i == n {
                            assert(s.monitors[mm].id != s.monitors[m].id);
                        } else {
                            assert(s.workspaces[i].monitor_id != s.monitors[mm].id);
                        }
                    }
                },
            }
        }
    }
    assert(windows_wf(s2)) by {
        assert forall|kk: int| #![trigger s2.windows[kk]] 0 <= kk < s2.windows.len() implies s2.windows[kk].id
            < s2.next_container_id && has_workspace(s2, s2.windows[kk].workspace_id) by {
            let i = choose|i: int|
                0 <= i < s.workspaces.len() && s.workspaces[i].id == s.windows[kk].workspace_id;
            assert(s2.workspaces[i].id == s.workspaces[i].id);
        }
    }
    lemma_workspace_found(s2, n);
}

/// Removing a workspace that holds no window and that no monitor displays
/// keeps a well-formed state well formed.
pub proof fn deactivate_workspace_keeps_wf(s: StateView, d: int)
    requires
        wf(s),
        0 <= d < s.workspaces.len(),
        !workspace_has_windows(s, s.workspaces[d].id),
        forall|m: int| 0 <= m < s.monitors.len() ==> #[trigger] s.monitors[m].displayed_workspace != Some(s.workspaces[d].id),
    ensures
        wf(with_deactivated_workspace(s, d)),
{
    let s2 = with_deactivated_workspace(s, d);
    s.workspaces.remove_ensures(d);
    lemma_window_in_workspace_from(s.windows, s.workspaces[d].id, 0);
    // Index in `s` of the workspace at index `j` of `s2`.
    assert forall|j: int| 0 <= j < s2.workspaces.len() implies #[trigger] s2.workspaces[j] == s.workspaces[if j < d { j } else { j + 1 }] by {}
    assert(workspaces_wf(s2)) by {
        assert forall|i: int, j: int|
            #![trigger s2.workspaces[i], s2.workspaces[j]]
            0 <= i < s2.workspaces.len() && 0 <= j < s2.workspaces.len() && i != j implies s2.workspaces[i].id
                != s2.workspaces[j].id && s2.workspaces[i].name != s2.workspaces[j].name by {
            let ii = if i < d { i } else { i + 1 };
            let jj = if j < d { j } else { j + 1 };
            assert(s.workspaces[ii] == s2.workspaces[i]);
            assert(s.workspaces[jj] == s2.workspaces[j]);
        }
        assert forall|i: int| #![trigger s2.workspaces[i]] 0 <= i < s2.workspaces.len() implies s2.workspaces[i].id
            < s2.next_container_id && has_monitor(s2, s2.workspaces[i].monitor_id) by {
            let ii = if i < d { i } else { i + 1 };
            assert(s.workspaces[ii] == s2.workspaces[i]);
        }
    }
    assert(monitors_wf(s2)) by {
        assert forall|m: int| 0 <= m < s2.monitors.len() implies #[trigger] display_wf(s2, m) by {
            assert(display_wf(s, m));
            match s.monitors[m].displayed_workspace {
                Some(w) => {
                    let i = choose|i: int|
                        0 <= i < s.workspaces.len() && #[trigger] s.workspaces[i].id == w
                            && s.workspaces[i].monitor_id == s.monitors[m].id;
                    assert(i != d);
                    let j = if i < d { i } else { i - 1 };
                    assert(s2.workspaces[j] == s.workspaces[i]);
                },
                None => {
                    assert forall|j: int| 0 <= j < s2.workspaces.len() implies #[trigger] s2.workspaces[j].monitor_id
                        != s2.monitors[m].id by {
                        let jj = if j < d { j } else { j + 1 };
                        assert(s.workspaces[jj] == s2.workspaces[j]);
                    }
                },
            }
        }
    }
    assert(windows_wf(s2)) by {
        assert forall|k: int| #![trigger s2.windows[k]] 0 <= k < s2.windows.len() implies s2.windows[k].id
            < s2.next_container_id && has_workspace(s2, s2.windows[k].workspace_id) by {
            let i = choose|i: int|
                0 <= i < s.workspaces.len() && s.workspaces[i].id == s.windows[k].workspace_id;
            assert(s.windows[k].workspace_id != s.workspaces[d].id);
            assert(i != d);
            let j = if i < d { i } else { i - 1 };
            assert(s2.workspaces[j] == s.workspaces[i]);
        }
        assert forall|k: int, j: int|
            #![trigger s2.windows[k], s2.workspaces[j]]
            0 <= k < s2.windows.len() && 0 <= j < s2.workspaces.len() implies s2.windows[k].id
                != s2.workspaces[j].id by {
            let jj = if j < d { j } else { j + 1 };
            assert(s.workspaces[jj] == s2.workspaces[j]);
        }
    }
}

/// The workspace at index `i` is the one that focusing workspace `t` may
/// remove: another workspace, not kept alive, holding no window, and
/// displayed on the monitor of `t`.
pub open spec fn may_be_removed_by_focus(s: StateView, t: int, i: int) -> bool {
    &&& s.workspaces[i].id != s.workspaces[t].id
    &&& !s.workspaces[i].keep_alive
    &&& !workspace_has_windows(s, s.workspaces[i].id)
    &&& monitor_index_by_id(s, s.workspaces[t].monitor_id) matches Some(m) && s.monitors[m].displayed_workspace
        == Some(s.workspaces[i].id)
}

/// The workspace at index `j` of `s` is focused and displayed on its monitor.
pub open spec fn shows_focused_workspace(s: StateView, j: int) -> bool {
    &&& 0 <= j < s.workspaces.len()
    &&& focused_workspace_index(s) == Some(j)
    &&& monitor_index_by_id(s, s.workspaces[j].monitor_id) matches Some(m) && s.monitors[m].displayed_workspace
        == Some(s.workspaces[j].id)
}

/// Focus in `s` lies on the window of workspace `j` that was focused most
/// recently: the window of `j` with the smallest index in the focus-ordered
/// window list; when `j` holds no window, on workspace `j` itself.
pub open spec fn focuses_last_focused_window(s: StateView, j: int) -> bool {
    let id = s.workspaces[j].id;
    if exists|k: int| 0 <= k < s.windows.len() && #[trigger] s.windows[k].workspace_id == id {
        exists|k: int|
            0 <= k < s.windows.len() && #[trigger] s.windows[k].workspace_id == id && (forall|l: int|
                0 <= l < k ==> s.windows[l].workspace_id != id) && s.focused_container == Some(s.windows[k].id)
    } else {
        s.focused_container == Some(id)
    }
}

/// Focusing an active workspace of a well-formed state succeeds and keeps
/// the state well formed. The workspace is then focused and displayed on
/// its monitor; `recent` is the recent workspace; focus is marked unsynced
/// with a focus change and a cursor jump queued; every other workspace
/// stays, but for the one that the monitor displayed before, when it is
/// not kept alive and holds no window. Windows stay as they were, and focus
/// goes to the window of the workspace that last had focus.
#[verifier::rlimit(50)]
pub proof fn focus_active_workspace_law(s: StateView, t: int, recent: Seq<char>)
    requires
        wf(s),
        0 <= t < s.workspaces.len(),
    ensures
        ({
            let (s2, r) = focus_active_workspace_result(s, t, recent);
            &&& r is Ok
            &&& wf(s2)
            &&& exists|j: int|
                #[trigger] shows_focused_workspace(s2, j) && s2.workspaces[j] == s.workspaces[t]
                    && focuses_last_focused_window(s2, j)
            &&& s2.recent_workspace_name == Some(recent)
            &&& !s2.is_focus_synced
            &&& s2.pending_sync.focus_change
            &&& s2.pending_sync.cursor_jump
            &&& s2.windows == s.windows
            &&& s2.next_container_id == s.next_container_id
            &&& forall|i: int|
                0 <= i < s.workspaces.len() && !may_be_removed_by_focus(s, t, i) ==> exists|j: int|
                    0 <= j < s2.workspaces.len() && #[trigger] s2.workspaces[j] == s.workspaces[i]
            &&& forall|i: int, j: int|
                0 <= i < s.workspaces.len() && may_be_removed_by_focus(s, t, i) && 0 <= j < s2.workspaces.len()
                    ==> #[trigger] s2.workspaces[j].id != #[trigger] s.workspaces[i].id
        }),
{
    let ws = s.workspaces[t];
    lemma_has_monitor(s, ws.monitor_id);
    let m = monitor_index_by_id(s, ws.monitor_id)->Some_0;
    assert(display_wf(s, m));
    assert(s.monitors[m].displayed_workspace is Some);
    let did = s.monitors[m].displayed_workspace->Some_0;
    let d = choose|i: int|
        0 <= i < s.workspaces.len() && #[trigger] s.workspaces[i].id == did && s.workspaces[i].monitor_id
            == s.monitors[m].id;
    lemma_workspace_found(s, d);
    lemma_workspace_found(s, t);
    let s1 = with_focus_switched(s, t, m, did, recent);
    // The switched state is well formed.
    assert(workspaces_wf(s1)) by {
        assert forall|i: int| #![trigger s1.workspaces[i]] 0 <= i < s1.workspaces.len() implies s1.workspaces[i].id
            < s1.next_container_id && has_monitor(s1, s1.workspaces[i].monitor_id) by {
            let mi = choose|mi: int| 0 <= mi < s.monitors.len() && s.monitors[mi].id == s.workspaces[i].monitor_id;
            assert(s1.monitors[mi].id == s.monitors[mi].id);
        }
    }
    assert(monitors_wf(s1)) by {
        assert forall|mm: int| 0 <= mm < s1.monitors.len() implies #[trigger] display_wf(s1, mm) by {
            assert(display_wf(s, mm));
            if mm == m {
                assert(s1.workspaces[t].id == ws.id);
            }
        }
    }
    assert(wf(s1));
    // The container to focus lies in workspace `t`.
    lemma_window_in_workspace_from(s.windows, ws.id, 0);
    lemma_workspace_by_id_from(s.workspaces, container_to_focus(s, t), 0);
    let s2 = if removes_displayed_workspace(s, t, d) {
        with_deactivated_workspace(s1, d)
    } else {
        s1
    };
    let j = if removes_displayed_workspace(s, t, d) && d < t { t - 1 } else { t };
    if removes_displayed_workspace(s, t, d) {
        lemma_window_in_workspace_from(s1.windows, s1.workspaces[d].id, 0);
        assert forall|mm: int| 0 <= mm < s1.monitors.len() implies #[trigger] s1.monitors[mm].displayed_workspace
            != Some(s1.workspaces[d].id) by {
            if mm != m {
                assert(display_wf(s, mm));
                if s.monitors[mm].displayed_workspace == Some(did) {
                    let i = choose|i: int|
                        0 <= i < s.workspaces.len() && #[trigger] s.workspaces[i].id == did
                            && s.workspaces[i].monitor_id == s.monitors[mm].id;
                    assert(i == d);
                }
            }
        }
        deactivate_workspace_keeps_wf(s1, d);
        s1.workspaces.remove_ensures(d);
        assert(s2.workspaces[j] == ws);
    }
    assert(wf(s2));
    assert(s2.workspaces[j] == ws);
    lemma_workspace_found(s2, j);
    lemma_has_monitor(s2, ws.monitor_id);
    lemma_monitor_found(s, m);
    lemma_monitor_found(s2, m);
    match first_window_in_workspace(s, ws.id) {
        Some(k) => {
            lemma_window_found(s2, k);
            lemma_workspace_by_id_from(s2.workspaces, s.windows[k].id, 0);
        },
        None => {},
    }
    assert(shows_focused_workspace(s2, j));
    assert(s2.windows == s.windows);
    assert(s2.workspaces[j].id == ws.id);
    if let Some(k) = first_window_in_workspace(s, ws.id) {
        assert(s2.windows[k].workspace_id == ws.id);
        assert(s2.focused_container == Some(s2.windows[k].id));
    } else {
        assert(s2.focused_container == Some(ws.id));
    }
    assert(focuses_last_focused_window(s2, j));
    assert forall|i: int|
        0 <= i < s.workspaces.len() && !may_be_removed_by_focus(s, t, i) implies exists|jj: int|
            0 <= jj < s2.workspaces.len() && #[trigger] s2.workspaces[jj] == s.workspaces[i] by {
        if removes_displayed_workspace(s, t, d) {
            s1.workspaces.remove_ensures(d);
            assert(i != d);
            let jj = if i < d { i } else { i - 1 };
            assert(s2.workspaces[jj] == s.workspaces[i]);
        } else {
            assert(s2.workspaces[i] == s.workspaces[i]);
        }
    }
    assert forall|i: int, jj: int|
        0 <= i < s.workspaces.len() && may_be_removed_by_focus(s, t, i) && 0 <= jj < s2.workspaces.len()
            implies #[trigger] s2.workspaces[jj].id != #[trigger] s.workspaces[i].id by {
        assert(s.workspaces[i].id == did);
        assert(i == d);
        assert(removes_displayed_workspace(s, t, d));
        s1.workspaces.remove_ensures(d);
        let ii = if jj < d { jj } else { jj + 1 };
        assert(s2.workspaces[jj] == s.workspaces[ii]);
    }
}

/// A target resolved to an active workspace resolves to an existing one,
/// under the name that the target names.
pub proof fn lemma_target_found(s: StateView, f: int, target: WorkspaceTargetView, c: UserConfigView)
    requires
        0 <= f < s.workspaces.len(),
    ensures
        ({
            let (name, found) = workspace_by_target_result(s, f, target, c);
            found matches Some(i) ==> 0 <= i < s.workspaces.len() && name == Some(s.workspaces[i].name)
        }),
{
    let (name, found) = workspace_by_target_result(s, f, target, c);
    if let Some(n) = name {
        lemma_workspace_by_name_from(s.workspaces, n, 0);
    }
    if let WorkspaceTargetView::Direction(d) = target {
        if let Some(i) = found {
            let m = monitor_index_by_id(s, s.workspaces[f].monitor_id)->Some_0;
            let m2 = monitor_in_direction_index(s, m, d)->Some_0;
            lemma_workspace_by_id_from(s.workspaces, s.monitors[m2].displayed_workspace->Some_0, 0);
        }
    }
}

/// `focus_workspace` keeps a well-formed state well formed and never finds
/// its target's monitor without a displayed workspace; when it fails the
/// state is unchanged. When it succeeds on a target that names a
/// workspace, the workspace of that name is focused and displayed on its
/// monitor, the workspace focused before is the recent one, and focus is
/// marked unsynced with a focus change and a cursor jump queued.
pub proof fn focus_workspace_law(s: StateView, target: WorkspaceTargetView, c: UserConfigView)
    requires
        wf(s),
        s.next_container_id < u64::MAX,
    ensures
        ({
            let (s2, r) = focus_workspace_result(s, target, c);
            &&& wf(s2)
            &&& r != Err::<(), WmError>(WmError::NoDisplayedWorkspace)
            &&& r is Err ==> s2 == s
            &&& s2.next_container_id <= s.next_container_id + 1
            &&& (r is Ok && focused_workspace_index(s) is Some && workspace_by_target_result(
                s,
                focused_workspace_index(s)->Some_0,
                target,
                c,
            ).0 is Some) ==> {
                let f = focused_workspace_index(s)->Some_0;
                let n = workspace_by_target_result(s, f, target, c).0->Some_0;
                &&& exists|j: int|
                    #[trigger] shows_focused_workspace(s2, j) && s2.workspaces[j].name == n
                        && focuses_last_focused_window(s2, j)
                &&& s2.recent_workspace_name == Some(s.workspaces[f].name)
                &&& !s2.is_focus_synced
                &&& s2.pending_sync.focus_change
                &&& s2.pending_sync.cursor_jump
            }
        }),
{
    if let Some(f) = focused_workspace_index(s) {
        lemma_workspace_by_id_from(s.workspaces, s.focused_container->Some_0, 0);
        if let Some(k) = window_index_by_id(s, s.focused_container->Some_0) {
            lemma_workspace_by_id_from(s.workspaces, s.windows[k].workspace_id, 0);
        }
        assert(0 <= f < s.workspaces.len());
        let recent = s.workspaces[f].name;
        lemma_target_found(s, f, target, c);
        let (name, found) = workspace_by_target_result(s, f, target, c);
        match found {
            Some(i) => {
                focus_active_workspace_law(s, i, recent);
            },
            None => {
                if let Some(n) = name {
                    if let Ok(s2) = activate_workspace_result(s, n, c) {
                        activate_workspace_keeps_wf(s, n, c);
                        focus_active_workspace_law(s2, s.workspaces.len() as int, recent);
                    }
                }
            },
        }
    }
}

/// Focusing a workspace and then the recent workspace returns to the
/// workspace that was focused first (by name). The first target must name
/// a workspace; when the first workspace was removed on the way, its config
/// entry brings it back.
pub proof fn focus_recent_returns(s: StateView, target: WorkspaceTargetView, c: UserConfigView)
    requires
        wf(s),
        s.next_container_id + 1 < u64::MAX,
        focused_workspace_index(s) is Some,
        workspace_by_target_result(s, focused_workspace_index(s)->Some_0, target, c).0 is Some,
        focus_workspace_result(s, target, c).1 is Ok,
        config_index_by_name(c, s.workspaces[focused_workspace_index(s)->Some_0].name) is Some,
    ensures
        ({
            let s2 = focus_workspace_result(s, target, c).0;
            let (s3, r3) = focus_workspace_result(s2, WorkspaceTargetView::Recent, c);
            &&& r3 is Ok
            &&& exists|j: int|
                #[trigger] shows_focused_workspace(s3, j) && s3.workspaces[j].name == s.workspaces[focused_workspace_index(
                    s,
                )->Some_0].name
        }),
{
    let f = focused_workspace_index(s)->Some_0;
    let n0 = s.workspaces[f].name;
    focus_workspace_law(s, target, c);
    let s2 = focus_workspace_result(s, target, c).0;
    let j = choose|j: int| #[trigger] shows_focused_workspace(s2, j) && s2.workspaces[j].name
        == workspace_by_target_result(s, f, target, c).0->Some_0;
    assert(focused_workspace_index(s2) == Some(j));
    assert(workspace_by_target_result(s2, j, WorkspaceTargetView::Recent, c).0 == Some(n0));
    focus_workspace_law(s2, WorkspaceTargetView::Recent, c);
    let (s3, r3) = focus_workspace_result(s2, WorkspaceTargetView::Recent, c);
    // The recent workspace can always be reached: it is active, or its
    // config entry activates it on the monitor of the focused container.
    lemma_workspace_by_name_from(s2.workspaces, n0, 0);
    lemma_has_monitor(s2, s2.workspaces[j].monitor_id);
    lemma_monitor_by_id_from(s2.monitors, s2.focused_container->Some_0, 0);
    assert(monitor_index_of_container(s2, s2.focused_container->Some_0) is Some);
}

/// The config entries have distinct names.
pub open spec fn config_names_distinct(c: UserConfigView) -> bool {
    forall|i: int, j: int|
        #![trigger c.workspaces[i], c.workspaces[j]]
        0 <= i < c.workspaces.len() && 0 <= j < c.workspaces.len() && i != j ==> c.workspaces[i].name
            != c.workspaces[j].name
}

/// Focusing the next workspace and then the previous one returns to the
/// workspace focused first (by name), when that workspace has a config
/// entry and the entries have distinct names.
pub proof fn focus_next_then_previous_returns(s: StateView, c: UserConfigView)
    requires
        wf(s),
        s.next_container_id + 1 < u64::MAX,
        config_names_distinct(c),
        focused_workspace_index(s) is Some,
        config_index_by_name(c, s.workspaces[focused_workspace_index(s)->Some_0].name) is Some,
        focus_workspace_result(s, WorkspaceTargetView::Next, c).1 is Ok,
    ensures
        ({
            let s2 = focus_workspace_result(s, WorkspaceTargetView::Next, c).0;
            let (s3, r3) = focus_workspace_result(s2, WorkspaceTargetView::Previous, c);
            &&& r3 is Ok
            &&& exists|j: int|
                #[trigger] shows_focused_workspace(s3, j) && s3.workspaces[j].name == s.workspaces[focused_workspace_index(
                    s,
                )->Some_0].name
        }),
{
    let f = focused_workspace_index(s)->Some_0;
    let n0 = s.workspaces[f].name;
    let k = config_index_by_name(c, n0)->Some_0;
    lemma_config_by_name_from(c.workspaces, n0, 0);
    let k2 = next_config_index(c, k);
    let n1 = c.workspaces[k2].name;
    focus_workspace_law(s, WorkspaceTargetView::Next, c);
    let s2 = focus_workspace_result(s, WorkspaceTargetView::Next, c).0;
    let j = choose|j: int| #[trigger] shows_focused_workspace(s2, j) && s2.workspaces[j].name == n1;
    assert(focused_workspace_index(s2) == Some(j));
    lemma_config_by_name_from(c.workspaces, n1, 0);
    assert(config_index_by_name(c, n1) == Some(k2));
    assert(previous_config_index(c, k2) == k);
    assert(workspace_by_target_result(s2, j, WorkspaceTargetView::Previous, c).0 == Some(n0));
    focus_workspace_law(s2, WorkspaceTargetView::Previous, c);
    lemma_workspace_by_name_from(s2.workspaces, n0, 0);
    lemma_has_monitor(s2, s2.workspaces[j].monitor_id);
    lemma_monitor_by_id_from(s2.monitors, s2.focused_container->Some_0, 0);
    assert(monitor_index_of_container(s2, s2.focused_container->Some_0) is Some);
}

/// The monitor found in a direction lies in that direction; no monitor in
/// that direction is nearer; and every monitor before it in that direction
/// is farther (it is the first of the nearest). When none is found, no
/// monitor lies in that direction.
pub proof fn nearest_monitor_law(ms: Seq<Monitor>, origin: Rect, d: Direction, n: int)
    requires
        0 <= n <= ms.len(),
    ensures
        match nearest_monitor_upto(ms, origin, d, n) {
            Some(b) => {
                &&& 0 <= b < n
                &&& rect_in_direction(origin, ms[b].rect, d)
                &&& forall|x: int|
                    0 <= x < n && rect_in_direction(origin, #[trigger] ms[x].rect, d)
                        ==> !rect_nearer(ms[x].rect, ms[b].rect, d)
                &&& forall|x: int|
                    0 <= x < b && rect_in_direction(origin, #[trigger] ms[x].rect, d)
                        ==> rect_nearer(ms[b].rect, ms[x].rect, d)
            },
            None => forall|x: int|
                0 <= x < n ==> !rect_in_direction(origin, #[trigger] ms[x].rect, d),
        },
    decreases n,
{
    if n > 0 {
        nearest_monitor_law(ms, origin, d, n - 1);
    }
}

/// The monitor found in direction `d` of monitor `o` lies beyond `o`'s edge
/// in that direction (its left edge right of `o`'s for right, left of it
/// for left; its top edge below `o`'s for down, above it for up) and shares
/// a row with `o` (right, left) or a column (up, down). No other monitor so
/// placed is nearer: none has a smaller left edge (right), a larger left
/// edge (left), a larger top edge (up) or a smaller top edge (down). When
/// none is found, no monitor is so placed.
pub proof fn monitor_in_direction_law(s: StateView, o: int, d: Direction)
    requires
        0 <= o < s.monitors.len(),
    ensures
        ({
            let a = s.monitors[o].rect;
            match monitor_in_direction_index(s, o, d) {
                Some(b) => {
                    let r = s.monitors[b].rect;
                    &&& 0 <= b < s.monitors.len()
                    &&& match d {
                        Direction::Right => r.left > a.left && r.top < a.bottom && a.top < r.bottom,
                        Direction::Left => r.left < a.left && r.top < a.bottom && a.top < r.bottom,
                        Direction::Up => r.top < a.top && r.left < a.right && a.left < r.right,
                        Direction::Down => r.top > a.top && r.left < a.right && a.left < r.right,
                    }
                    &&& forall|x: int|
                        0 <= x < s.monitors.len() ==> {
                            let q = #[trigger] s.monitors[x].rect;
                            match d {
                                Direction::Right => (q.left > a.left && q.top < a.bottom && a.top < q.bottom) ==> q.left
                                    >= r.left,
                                Direction::Left => (q.left < a.left && q.top < a.bottom && a.top < q.bottom) ==> q.left
                                    <= r.left,
                                Direction::Up => (q.top < a.top && q.left < a.right && a.left < q.right) ==> q.top
                                    <= r.top,
                                Direction::Down => (q.top > a.top && q.left < a.right && a.left < q.right) ==> q.top
                                    >= r.top,
                            }
                        }
                },
                None => forall|x: int|
                    0 <= x < s.monitors.len() ==> {
                        let q = #[trigger] s.monitors[x].rect;
                        match d {
                            Direction::Right => !(q.left > a.left && q.top < a.bottom && a.top < q.bottom),
                            Direction::Left => !(q.left < a.left && q.top < a.bottom && a.top < q.bottom),
                            Direction::Up => !(q.top < a.top && q.left < a.right && a.left < q.right),
                            Direction::Down => !(q.top > a.top && q.left < a.right && a.left < q.right),
                        }
                    },
            }
        }),
{
    nearest_monitor_law(s.monitors, s.monitors[o].rect, d, s.monitors.len() as int);
}

/// What each kind of target names, taken from workspace `f`: a name names
/// itself; `Recent` names the recent workspace; `Next` and `Previous` name
/// the config entry after or before (cyclically) the first entry named like
/// `f`, and nothing when there is none. Whatever is named, the workspace
/// found is the active workspace of that name, if any.
pub proof fn workspace_by_target_law(s: StateView, f: int, target: WorkspaceTargetView, c: UserConfigView)
    requires
        wf(s),
        0 <= f < s.workspaces.len(),
    ensures
        ({
            let (name, found) = workspace_by_target_result(s, f, target, c);
            let len = c.workspaces.len() as int;
            &&& name matches Some(n) ==> (match found {
                Some(i) => 0 <= i < s.workspaces.len() && s.workspaces[i].name == n,
                None => forall|i: int| 0 <= i < s.workspaces.len() ==> #[trigger] s.workspaces[i].name != n,
            })
            &&& name is None ==> found is None
            &&& match target {
                WorkspaceTargetView::Name(n) => name == Some(n),
                WorkspaceTargetView::Recent => name == s.recent_workspace_name,
                WorkspaceTargetView::Next => match config_index_by_name(c, s.workspaces[f].name) {
                    Some(k) => 0 <= k < len && c.workspaces[k].name == s.workspaces[f].name && (forall|l: int|
                        0 <= l < k ==> #[trigger] c.workspaces[l].name != s.workspaces[f].name) && name == Some(
                        c.workspaces[(k + 1) % len].name,
                    ),
                    None => name is None && forall|l: int|
                        0 <= l < len ==> #[trigger] c.workspaces[l].name != s.workspaces[f].name,
                },
                WorkspaceTargetView::Previous => match config_index_by_name(c, s.workspaces[f].name) {
                    Some(k) => 0 <= k < len && c.workspaces[k].name == s.workspaces[f].name && (forall|l: int|
                        0 <= l < k ==> #[trigger] c.workspaces[l].name != s.workspaces[f].name) && name == Some(
                        c.workspaces[(k + len - 1) % len].name,
                    ),
                    None => name is None && forall|l: int|
                        0 <= l < len ==> #[trigger] c.workspaces[l].name != s.workspaces[f].name,
                },
                WorkspaceTargetView::Direction(_) => true,
            }
        }),
{
    lemma_target_found(s, f, target, c);
    lemma_config_by_name_from(c.workspaces, s.workspaces[f].name, 0);
    let (name, found) = workspace_by_target_result(s, f, target, c);
    if let Some(n) = name {
        lemma_workspace_by_name_from(s.workspaces, n, 0);
    }
    let len = c.workspaces.len() as int;
    if let Some(k) = config_index_by_name(c, s.workspaces[f].name) {
        if k + 1 < len {
            assert((k + 1) % len == k + 1) by (nonlinear_arith)
                requires
                    0 <= k + 1 < len,
            ;
        } else {
            assert((k + 1) % len == 0) by (nonlinear_arith)
                requires
                    k + 1 == len,
                    0 <= k,
            ;
        }
        if k > 0 {
            assert((k + len - 1) % len == k - 1) by (nonlinear_arith)
                requires
                    0 < k < len,
            ;
        } else {
            assert((k + len - 1) % len == len - 1) by (nonlinear_arith)
                requires
                    k == 0,
                    0 < len,
            ;
        }
    }
}

/// A workspace activated in a well-formed state lies on the monitor that its
/// config entry binds it to, when that monitor exists, and otherwise on the
/// monitor holding the focused container; it gets the next free id and
/// the entry's keep-alive setting.
pub proof fn activation_monitor_law(s: StateView, name: Seq<char>, c: UserConfigView)
    requires
        wf(s),
        s.next_container_id < u64::MAX,
        activate_workspace_result(s, name, c) is Ok,
    ensures
        ({
            let s2 = activate_workspace_result(s, name, c)->Ok_0;
            let k = config_index_by_name(c, name)->Some_0;
            let entry = c.workspaces[k];
            let w = s2.workspaces[s.workspaces.len() as int];
            &&& 0 <= k < c.workspaces.len() && entry.name == name
            &&& w.id == s.next_container_id
            &&& w.keep_alive == entry.keep_alive
            &&& match entry.bind_to_monitor {
                Some(mi) if (mi as int) < s.monitors.len() => w.monitor_id == s.monitors[mi as int].id,
                _ => exists|m: int|
                    0 <= m < s.monitors.len() && #[trigger] s.monitors[m].id == w.monitor_id
                        && monitor_index_of_container(s, s.focused_container->Some_0) == Some(m),
            }
        }),
{
    lemma_config_by_name_from(c.workspaces, name, 0);
    if let Some(f) = s.focused_container {
        lemma_monitor_of_container_in_range(s, f);
    }
    activate_workspace_keeps_wf(s, name, c);
}

} // verus!
