//! Well-formedness of the window manager's state, and what the lookups
//! find.

use vstd::prelude::*;

use crate::model::{
    monitor_index_by_id, monitor_index_of_container, window_index_by_id, workspace_index_by_id,
    workspace_index_by_name, workspace_index_of_container, config_index_by_name_from, with_monitor_added,
    Rect, monitor_index_by_handle_from, monitor_index_by_id_from, Monitor,
    StateView, WindowView, WorkspaceConfigView, WorkspaceView, window_index_by_handle_from,
    window_index_by_id_from, window_index_in_workspace_from, workspace_index_by_id_from,
    workspace_index_by_name_from,
};

verus! {

/// Some monitor has this container id.
pub open spec fn has_monitor(s: StateView, id: u64) -> bool {
    exists|m: int| 0 <= m < s.monitors.len() && s.monitors[m].id == id
}

/// Some workspace has this container id.
pub open spec fn has_workspace(s: StateView, id: u64) -> bool {
    exists|i: int| 0 <= i < s.workspaces.len() && s.workspaces[i].id == id
}

/// Workspaces have distinct ids and names, ids below the next free id, and
/// lie on existing monitors.
pub open spec fn workspaces_wf(s: StateView) -> bool {
    &&& forall|i: int, j: int|
        #![trigger s.workspaces[i], s.workspaces[j]]
        0 <= i < s.workspaces.len() && 0 <= j < s.workspaces.len() && i != j ==> s.workspaces[i].id
            != s.workspaces[j].id && s.workspaces[i].name != s.workspaces[j].name
    &&& forall|i: int|
        #![trigger s.workspaces[i]]
        0 <= i < s.workspaces.len() ==> s.workspaces[i].id < s.next_container_id && has_monitor(
            s,
            s.workspaces[i].monitor_id,
        )
}

/// What monitor `m` displays: one of its own workspaces, or nothing when it
/// holds none.
pub open spec fn display_wf(s: StateView, m: int) -> bool {
    match s.monitors[m].displayed_workspace {
        Some(w) => exists|i: int|
            0 <= i < s.workspaces.len() && #[trigger] s.workspaces[i].id == w && s.workspaces[i].monitor_id
                == s.monitors[m].id,
        None => forall|i: int|
            0 <= i < s.workspaces.len() ==> #[trigger] s.workspaces[i].monitor_id != s.monitors[m].id,
    }
}

/// Monitors have distinct ids below the next free id, and each displays one of its workspaces
/// unless it holds none.
pub open spec fn monitors_wf(s: StateView) -> bool {
    &&& forall|m: int, n: int|
        #![trigger s.monitors[m], s.monitors[n]]
        0 <= m < s.monitors.len() && 0 <= n < s.monitors.len() && m != n ==> s.monitors[m].id
            != s.monitors[n].id
    &&& forall|m: int| 0 <= m < s.monitors.len() ==> #[trigger] s.monitors[m].id < s.next_container_id
    &&& forall|m: int| 0 <= m < s.monitors.len() ==> #[trigger] display_wf(s, m)
}

/// Windows have distinct ids below the next free id, apart from all
/// workspace ids, and lie in existing workspaces.
pub open spec fn windows_wf(s: StateView) -> bool {
    &&& forall|k: int, l: int|
        #![trigger s.windows[k], s.windows[l]]
        0 <= k < s.windows.len() && 0 <= l < s.windows.len() && k != l ==> s.windows[k].id
            != s.windows[l].id
    &&& forall|k: int|
        #![trigger s.windows[k]]
        0 <= k < s.windows.len() ==> s.windows[k].id < s.next_container_id && has_workspace(
            s,
            s.windows[k].workspace_id,
        )
    &&& forall|k: int, i: int|
        #![trigger s.windows[k], s.workspaces[i]]
        0 <= k < s.windows.len() && 0 <= i < s.workspaces.len() ==> s.windows[k].id
            != s.workspaces[i].id
}

/// The state is well formed.
pub open spec fn wf(s: StateView) -> bool {
    &&& workspaces_wf(s)
    &&& monitors_wf(s)
    &&& windows_wf(s)
}

// What the lookups find: the first match from the start index on.

pub proof fn lemma_workspace_by_name_from(ws: Seq<WorkspaceView>, name: Seq<char>, i: int)
    requires
        0 <= i,
    ensures
        match workspace_index_by_name_from(ws, name, i) {
            Some(j) => i <= j < ws.len() && ws[j].name == name && forall|k: int|
                i <= k < j ==> #[trigger] ws[k].name != name,
            None => forall|k: int| i <= k < ws.len() ==> #[trigger] ws[k].name != name,
        },
    decreases ws.len() - i,
{
    if i < ws.len() && ws[i].name != name {
        lemma_workspace_by_name_from(ws, name, i + 1);
    }
}

pub proof fn lemma_workspace_by_id_from(ws: Seq<WorkspaceView>, id: u64, i: int)
    requires
        0 <= i,
    ensures
        match workspace_index_by_id_from(ws, id, i) {
            Some(j) => i <= j < ws.len() && ws[j].id == id && forall|k: int|
                i <= k < j ==> #[trigger] ws[k].id != id,
            None => forall|k: int| i <= k < ws.len() ==> #[trigger] ws[k].id != id,
        },
    decreases ws.len() - i,
{
    if i < ws.len() && ws[i].id != id {
        lemma_workspace_by_id_from(ws, id, i + 1);
    }
}

pub proof fn lemma_monitor_by_id_from(ms: Seq<Monitor>, id: u64, i: int)
    requires
        0 <= i,
    ensures
        match monitor_index_by_id_from(ms, id, i) {
            Some(j) => i <= j < ms.len() && ms[j].id == id && forall|k: int|
                i <= k < j ==> #[trigger] ms[k].id != id,
            None => forall|k: int| i <= k < ms.len() ==> #[trigger] ms[k].id != id,
        },
    decreases ms.len() - i,
{
    if i < ms.len() && ms[i].id != id {
        lemma_monitor_by_id_from(ms, id, i + 1);
    }
}

pub proof fn lemma_monitor_by_handle_from(ms: Seq<Monitor>, handle: isize, i: int)
    requires
        0 <= i,
    ensures
        match monitor_index_by_handle_from(ms, handle, i) {
            Some(j) => i <= j < ms.len() && ms[j].handle == handle && forall|k: int|
                i <= k < j ==> #[trigger] ms[k].handle != handle,
            None => forall|k: int| i <= k < ms.len() ==> #[trigger] ms[k].handle != handle,
        },
    decreases ms.len() - i,
{
    if i < ms.len() && ms[i].handle != handle {
        lemma_monitor_by_handle_from(ms, handle, i + 1);
    }
}

pub proof fn lemma_window_by_handle_from(ws: Seq<WindowView>, handle: isize, i: int)
    requires
        0 <= i,
    ensures
        match window_index_by_handle_from(ws, handle, i) {
            Some(j) => i <= j < ws.len() && ws[j].handle == handle && forall|k: int|
                i <= k < j ==> #[trigger] ws[k].handle != handle,
            None => forall|k: int| i <= k < ws.len() ==> #[trigger] ws[k].handle != handle,
        },
    decreases ws.len() - i,
{
    if i < ws.len() && ws[i].handle != handle {
        lemma_window_by_handle_from(ws, handle, i + 1);
    }
}

pub proof fn lemma_window_by_id_from(ws: Seq<WindowView>, id: u64, i: int)
    requires
        0 <= i,
    ensures
        match window_index_by_id_from(ws, id, i) {
            Some(j) => i <= j < ws.len() && ws[j].id == id && forall|k: int|
                i <= k < j ==> #[trigger] ws[k].id != id,
            None => forall|k: int| i <= k < ws.len() ==> #[trigger] ws[k].id != id,
        },
    decreases ws.len() - i,
{
    if i < ws.len() && ws[i].id != id {
        lemma_window_by_id_from(ws, id, i + 1);
    }
}

pub proof fn lemma_window_in_workspace_from(ws: Seq<WindowView>, workspace_id: u64, i: int)
    requires
        0 <= i,
    ensures
        match window_index_in_workspace_from(ws, workspace_id, i) {
            Some(j) => i <= j < ws.len() && ws[j].workspace_id == workspace_id && forall|k: int|
                i <= k < j ==> #[trigger] ws[k].workspace_id != workspace_id,
            None => forall|k: int| i <= k < ws.len() ==> #[trigger] ws[k].workspace_id != workspace_id,
        },
    decreases ws.len() - i,
{
    if i < ws.len() && ws[i].workspace_id != workspace_id {
        lemma_window_in_workspace_from(ws, workspace_id, i + 1);
    }
}

pub proof fn lemma_config_by_name_from(cs: Seq<WorkspaceConfigView>, name: Seq<char>, i: int)
    requires
        0 <= i,
    ensures
        match config_index_by_name_from(cs, name, i) {
            Some(j) => i <= j < cs.len() && cs[j].name == name && forall|k: int|
                i <= k < j ==> #[trigger] cs[k].name != name,
            None => forall|k: int| i <= k < cs.len() ==> #[trigger] cs[k].name != name,
        },
    decreases cs.len() - i,
{
    if i < cs.len() && cs[i].name != name {
        lemma_config_by_name_from(cs, name, i + 1);
    }
}

/// Well-formedness depends only on the monitors, the workspaces, the
/// windows and the next free id.
pub proof fn lemma_wf_frame(s: StateView, s2: StateView)
    requires
        wf(s),
        s2.monitors == s.monitors,
        s2.workspaces == s.workspaces,
        s2.windows == s.windows,
        s.next_container_id <= s2.next_container_id,
    ensures
        wf(s2),
{
    lemma_monitors_wf_frame(s, s2);
}

/// The monitors' part of well-formedness depends only on the monitors and
/// the workspaces.
pub proof fn lemma_monitors_wf_frame(s: StateView, s2: StateView)
    requires
        monitors_wf(s),
        s2.monitors == s.monitors,
        s2.workspaces == s.workspaces,
        s.next_container_id <= s2.next_container_id,
    ensures
        monitors_wf(s2),
{
    assert forall|m: int| 0 <= m < s2.monitors.len() implies #[trigger] display_wf(s2, m) by {
        assert(display_wf(s, m));
    }
}

/// A new state is well formed.
pub proof fn new_state_wf(s: StateView)
    requires
        s.monitors.len() == 0,
        s.workspaces.len() == 0,
        s.windows.len() == 0,
    ensures
        wf(s),
{
}

/// Adding a monitor keeps a well-formed state well formed.
pub proof fn add_monitor_keeps_wf(s: StateView, handle: isize, rect: Rect)
    requires
        wf(s),
        s.next_container_id < u64::MAX,
    ensures
        wf(with_monitor_added(s, handle, rect)),
{
    let s2 = with_monitor_added(s, handle, rect);
    let n = s.monitors.len() as int;
    assert(workspaces_wf(s2)) by {
        assert forall|i: int| #![trigger s2.workspaces[i]] 0 <= i < s2.workspaces.len() implies s2.workspaces[i].id
            < s2.next_container_id && has_monitor(s2, s2.workspaces[i].monitor_id) by {
            let mi = choose|mi: int| 0 <= mi < s.monitors.len() && s.monitors[mi].id == s.workspaces[i].monitor_id;
            assert(s2.monitors[mi] == s.monitors[mi]);
        }
    }
    assert(monitors_wf(s2)) by {
        assert forall|m: int| 0 <= m < s2.monitors.len() implies #[trigger] display_wf(s2, m) by {
            if m < n {
                assert(display_wf(s, m));
                assert(s2.monitors[m] == s.monitors[m]);
                if let Some(w) = s.monitors[m].displayed_workspace {
                    let i = choose|i: int|
                        0 <= i < s.workspaces.len() && #[trigger] s.workspaces[i].id == w
                            && s.workspaces[i].monitor_id == s.monitors[m].id;
                    assert(s2.workspaces[i].id == w);
                }
            } else {
                assert forall|i: int| 0 <= i < s2.workspaces.len() implies #[trigger] s2.workspaces[i].monitor_id
                    != s2.monitors[m].id by {
                    let mi = choose|mi: int| 0 <= mi < s.monitors.len() && s.monitors[mi].id == s.workspaces[i].monitor_id;
                    assert(s.monitors[mi].id < s.next_container_id);
                }
            }
        }
        assert forall|m: int, k: int|
            #![trigger s2.monitors[m], s2.monitors[k]]
            0 <= m < s2.monitors.len() && 0 <= k < s2.monitors.len() && m != k implies s2.monitors[m].id
                != s2.monitors[k].id by {
            if m < n {
                assert(s2.monitors[m] == s.monitors[m]);
            }
            if k < n {
                assert(s2.monitors[k] == s.monitors[k]);
            }
        }
        assert forall|m: int| 0 <= m < s2.monitors.len() implies #[trigger] s2.monitors[m].id < s2.next_container_id by {
            if m < n {
                assert(s2.monitors[m] == s.monitors[m]);
            }
        }
    }
    assert(windows_wf(s2)) by {
        assert forall|k: int| #![trigger s2.windows[k]] 0 <= k < s2.windows.len() implies s2.windows[k].id
            < s2.next_container_id && has_workspace(s2, s2.windows[k].workspace_id) by {
            let i = choose|i: int| 0 <= i < s.workspaces.len() && s.workspaces[i].id == s.windows[k].workspace_id;
            assert(s2.workspaces[i].id == s2.windows[k].workspace_id);
        }
    }
}

// What the lookups find in a well-formed state.

/// In a well-formed state a workspace is found by its id and by its name.
pub proof fn lemma_workspace_found(s: StateView, i: int)
    requires
        workspaces_wf(s),
        0 <= i < s.workspaces.len(),
    ensures
        workspace_index_by_id(s, s.workspaces[i].id) == Some(i),
        workspace_index_by_name(s, s.workspaces[i].name) == Some(i),
{
    lemma_workspace_by_id_from(s.workspaces, s.workspaces[i].id, 0);
    lemma_workspace_by_name_from(s.workspaces, s.workspaces[i].name, 0);
}

/// In a well-formed state a monitor is found by its id.
pub proof fn lemma_monitor_found(s: StateView, m: int)
    requires
        monitors_wf(s),
        0 <= m < s.monitors.len(),
    ensures
        monitor_index_by_id(s, s.monitors[m].id) == Some(m),
{
    lemma_monitor_by_id_from(s.monitors, s.monitors[m].id, 0);
}

/// In a well-formed state a window is found by its id.
pub proof fn lemma_window_found(s: StateView, k: int)
    requires
        windows_wf(s),
        0 <= k < s.windows.len(),
    ensures
        window_index_by_id(s, s.windows[k].id) == Some(k),
{
    lemma_window_by_id_from(s.windows, s.windows[k].id, 0);
}

/// A monitor id that some monitor has is found.
pub proof fn lemma_has_monitor(s: StateView, id: u64)
    requires
        has_monitor(s, id),
    ensures
        monitor_index_by_id(s, id) matches Some(m) && 0 <= m < s.monitors.len() && s.monitors[m].id == id,
{
    lemma_monitor_by_id_from(s.monitors, id, 0);
}

/// A workspace id that some workspace has is found.
pub proof fn lemma_has_workspace(s: StateView, id: u64)
    requires
        has_workspace(s, id),
    ensures
        workspace_index_by_id(s, id) matches Some(i) && 0 <= i < s.workspaces.len() && s.workspaces[i].id == id,
{
    lemma_workspace_by_id_from(s.workspaces, id, 0);
}

/// Lookups of monitors by container give existing monitors.
pub proof fn lemma_monitor_of_container_in_range(s: StateView, c: u64)
    ensures
        monitor_index_of_container(s, c) matches Some(m) ==> 0 <= m < s.monitors.len(),
{
    lemma_monitor_by_id_from(s.monitors, c, 0);
    if let Some(i) = workspace_index_of_container(s, c) {
        lemma_monitor_by_id_from(s.monitors, s.workspaces[i].monitor_id, 0);
    }
}

} // verus!
