//! What holds of the event handlers over all states.

use vstd::prelude::*;

use crate::events::{
    manage_window_result, remanage_window_result, remanage_windows_upto, session_change_result,
    session_resume_result, title_or_empty, window_title_changed_result, with_managed_window, SessionChangeAction,
    TitleChangeOutcome, VisibleWindowView,
};
use crate::model::{
    focused_workspace_index, monitor_index_by_handle, window_index_by_handle, window_index_by_handle_from,
    window_index_by_id,
    workspace_index_by_id, StateView, WindowView, WmEvent,
};
use crate::error::WmError;
use crate::session::SessionEvent;
use crate::wellformed::{
    has_workspace, lemma_monitors_wf_frame, lemma_wf_frame, lemma_window_by_handle_from, lemma_workspace_by_id_from, wf, windows_wf,
    workspaces_wf,
};

verus! {

/// Whether a session event pauses the window manager.
pub open spec fn pauses(e: SessionEvent) -> bool {
    e is Locked || e is Suspending
}

/// A session event sets the pause state (lock and suspend pause, unlock and
/// resume unpause), emits exactly that pause state, asks for the displays
/// to be refreshed exactly when it unpauses, changes nothing else, and
/// keeps a well-formed state well formed.
pub proof fn session_change_sets_pause_state(s: StateView, e: SessionEvent)
    ensures
        ({
            let (s2, action) = session_change_result(s, e);
            &&& s2.is_paused == pauses(e)
            &&& s2.events == s.events.push(WmEvent::PauseChanged { is_paused: s2.is_paused })
            &&& (action == SessionChangeAction::RefreshDisplaysAndRemanage) == !pauses(e)
            &&& s2 == (StateView { is_paused: s2.is_paused, events: s2.events, ..s })
            &&& wf(s) ==> wf(s2)
        }),
{
    if wf(s) {
        lemma_wf_frame(s, session_change_result(s, e).0);
    }
}

/// After a lock or suspend followed by an unlock or resume, the window
/// manager is unpaused, has emitted a pause and then an unpause, and asks
/// for the displays to be refreshed.
pub proof fn unlock_after_lock_unpauses(s: StateView, e1: SessionEvent, e2: SessionEvent)
    requires
        pauses(e1),
        !pauses(e2),
    ensures
        ({
            let (s1, a1) = session_change_result(s, e1);
            let (s2, a2) = session_change_result(s1, e2);
            &&& s1.is_paused
            &&& a1 == SessionChangeAction::Nothing
            &&& !s2.is_paused
            &&& a2 == SessionChangeAction::RefreshDisplaysAndRemanage
            &&& s2.events == s.events.push(WmEvent::PauseChanged { is_paused: true }).push(
                WmEvent::PauseChanged { is_paused: false },
            )
        }),
{
}

/// Managing a window in an existing workspace keeps a well-formed state
/// well formed, and the window is then found by its handle.
pub proof fn managed_window_keeps_wf(s: StateView, handle: isize, title: Seq<char>, workspace: int)
    requires
        wf(s),
        s.next_container_id < u64::MAX,
        0 <= workspace < s.workspaces.len(),
    ensures
        wf(with_managed_window(s, handle, title, s.workspaces[workspace].id)),
        window_index_by_handle(with_managed_window(s, handle, title, s.workspaces[workspace].id), handle) is Some,
{
    let s2 = with_managed_window(s, handle, title, s.workspaces[workspace].id);
    let n = s.windows.len() as int;
    assert(windows_wf(s2)) by {
        assert forall|k: int| #![trigger s2.windows[k]] 0 <= k < s2.windows.len() implies s2.windows[k].id
            < s2.next_container_id && has_workspace(s2, s2.windows[k].workspace_id) by {
            if k == n {
                assert(s2.workspaces[workspace].id == s2.windows[k].workspace_id);
            } else {
                assert(s2.windows[k] == s.windows[k]);
                let i = choose|i: int| 0 <= i < s.workspaces.len() && s.workspaces[i].id == s.windows[k].workspace_id;
                assert(s2.workspaces[i].id == s2.windows[k].workspace_id);
            }
        }
    }
    assert(workspaces_wf(s2));
    lemma_monitors_wf_frame(s, s2);
    lemma_window_by_handle_from(s2.windows, handle, 0);
    assert(s2.windows[n].handle == handle);
}

/// `manage_window` keeps a well-formed state well formed; when it succeeds
/// the window is appended with the next free id, in the target workspace,
/// else in the focused workspace, and when it was not managed before it is
/// found by its handle at that place; it fails only when no target is given
/// and no workspace is focused.
pub proof fn manage_window_law(s: StateView, handle: isize, title: Seq<char>, target: Option<int>)
    requires
        wf(s),
        s.next_container_id < u64::MAX,
        target matches Some(i) ==> 0 <= i < s.workspaces.len(),
    ensures
        match manage_window_result(s, handle, title, target) {
            Ok(s2) => {
                &&& wf(s2)
                &&& window_index_by_handle(s2, handle) is Some
                &&& s2.windows.len() == s.windows.len() + 1
                &&& forall|k: int| 0 <= k < s.windows.len() ==> s2.windows[k] == s.windows[k]
                &&& s2.windows[s.windows.len() as int] == (WindowView {
                    id: s.next_container_id,
                    handle,
                    title,
                    workspace_id: match target {
                        Some(i) => s.workspaces[i].id,
                        None => s.workspaces[focused_workspace_index(s)->Some_0].id,
                    },
                })
                &&& window_index_by_handle(s, handle) is None ==> window_index_by_handle(s2, handle) == Some(
                    s.windows.len() as int,
                )
            },
            Err(_) => target is None && focused_workspace_index(s) is None,
        },
{
    let workspace = match target {
        Some(i) => Some(i),
        None => focused_workspace_index(s),
    };
    if let Some(i) = workspace {
        if target is None {
            lemma_workspace_by_id_from(s.workspaces, s.focused_container->Some_0, 0);
            if let Some(k) = window_index_by_id(s, s.focused_container->Some_0) {
                lemma_workspace_by_id_from(s.workspaces, s.windows[k].workspace_id, 0);
            }
        }
        managed_window_keeps_wf(s, handle, title, i);
        let s2 = with_managed_window(s, handle, title, s.workspaces[i].id);
        lemma_window_by_handle_from(s.windows, handle, 0);
        lemma_window_by_handle_from(s2.windows, handle, 0);
        if window_index_by_handle(s, handle) is None {
            assert forall|l: int| 0 <= l < s.windows.len() implies #[trigger] s2.windows[l].handle != handle by {
                assert(s2.windows[l] == s.windows[l]);
            }
            assert(s2.windows[s.windows.len() as int].handle == handle);
        }
    }
}

/// The window with this handle is managed, in workspace `workspace_id`.
pub open spec fn managed_in(s: StateView, handle: isize, workspace_id: u64) -> bool {
    window_index_by_handle(s, handle) matches Some(k) && s.windows[k].workspace_id == workspace_id
}

/// The workspace displayed on the nearest monitor of a visible window.
pub open spec fn nearest_displayed_workspace(s: StateView, v: VisibleWindowView) -> u64 {
    s.monitors[monitor_index_by_handle(s, v.nearest_monitor->Some_0)->Some_0].displayed_workspace->Some_0
}

/// Whether a visible window can be placed after a resume: its nearest
/// monitor displays an existing workspace.
pub open spec fn has_nearest_workspace(s: StateView, v: VisibleWindowView) -> bool {
    v.nearest_monitor matches Some(h) && monitor_index_by_handle(s, h) matches Some(m)
        && s.monitors[m].displayed_workspace matches Some(wid) && workspace_index_by_id(s, wid) is Some
}

proof fn remanage_window_law(s: StateView, v: VisibleWindowView)
    requires
        wf(s),
        s.next_container_id < u64::MAX,
    ensures
        ({
            let s2 = remanage_window_result(s, v);
            &&& wf(s2)
            &&& s2.next_container_id <= s.next_container_id + 1
            &&& s2.monitors == s.monitors
            &&& s2.workspaces == s.workspaces
            &&& s2.root_id == s.root_id
            &&& s2.pending_sync == s.pending_sync
            &&& s.windows.len() <= s2.windows.len()
            &&& forall|k: int| 0 <= k < s.windows.len() ==> s2.windows[k] == s.windows[k]
            &&& has_nearest_workspace(s, v) ==> window_index_by_handle(s2, v.handle) is Some
            &&& s2.windows.len() <= s.windows.len() + 1
            &&& s2.windows.len() == s.windows.len() + 1 ==> s2.windows[s.windows.len() as int].handle == v.handle
            &&& (window_index_by_handle(s, v.handle) is None && has_nearest_workspace(s, v)) ==> {
                &&& s2.windows.len() == s.windows.len() + 1
                &&& s2.windows[s.windows.len() as int].workspace_id == nearest_displayed_workspace(s, v)
            }
        }),
{
    lemma_window_by_handle_from(s.windows, v.handle, 0);
    if window_index_by_handle(s, v.handle) is None && has_nearest_workspace(s, v) {
        let m = monitor_index_by_handle(s, v.nearest_monitor->Some_0)->Some_0;
        let wid = s.monitors[m].displayed_workspace->Some_0;
        let i = workspace_index_by_id(s, wid)->Some_0;
        lemma_workspace_by_id_from(s.workspaces, wid, 0);
        managed_window_keeps_wf(s, v.handle, v.title, i);
    }
}

/// A window found by its handle is still found once more windows are
/// appended.
proof fn lemma_found_window_stays(a: Seq<WindowView>, b: Seq<WindowView>, handle: isize)
    requires
        a.len() <= b.len(),
        forall|k: int| 0 <= k < a.len() ==> b[k] == a[k],
        window_index_by_handle_from(a, handle, 0) is Some,
    ensures
        window_index_by_handle_from(b, handle, 0) is Some,
{
    lemma_window_by_handle_from(a, handle, 0);
    lemma_window_by_handle_from(b, handle, 0);
    let k = window_index_by_handle_from(a, handle, 0)->Some_0;
    assert(b[k].handle == handle);
}

/// The first window with a handle keeps its index once more windows are
/// appended.
proof fn lemma_found_window_same(a: Seq<WindowView>, b: Seq<WindowView>, handle: isize)
    requires
        a.len() <= b.len(),
        forall|k: int| 0 <= k < a.len() ==> b[k] == a[k],
        window_index_by_handle_from(a, handle, 0) is Some,
    ensures
        window_index_by_handle_from(b, handle, 0) == window_index_by_handle_from(a, handle, 0),
{
    lemma_window_by_handle_from(a, handle, 0);
    lemma_window_by_handle_from(b, handle, 0);
    let k = window_index_by_handle_from(a, handle, 0)->Some_0;
    assert(b[k].handle == handle);
    let j = window_index_by_handle_from(b, handle, 0)->Some_0;
    if j < k {
        assert(b[j] == a[j]);
    }
}

/// Handling the first `n` visible windows keeps a well-formed state well
/// formed, keeps every managed window, and manages every one of them whose
/// nearest monitor displays an existing workspace. Every window added comes
/// from the list, and a window that was not managed and is listed for the
/// first time is managed in the workspace displayed on its nearest monitor.
pub proof fn remanage_windows_law(s: StateView, vs: Seq<VisibleWindowView>, n: int)
    requires
        wf(s),
        0 <= n <= vs.len(),
        s.next_container_id + n < u64::MAX,
    ensures
        ({
            let s2 = remanage_windows_upto(s, vs, n);
            &&& wf(s2)
            &&& s2.next_container_id <= s.next_container_id + n
            &&& s2.monitors == s.monitors
            &&& s2.workspaces == s.workspaces
            &&& s2.root_id == s.root_id
            &&& s2.pending_sync == s.pending_sync
            &&& s.windows.len() <= s2.windows.len()
            &&& forall|k: int| 0 <= k < s.windows.len() ==> s2.windows[k] == s.windows[k]
            &&& forall|i: int|
                0 <= i < n && #[trigger] has_nearest_workspace(s, vs[i]) ==> window_index_by_handle(
                    s2,
                    vs[i].handle,
                ) is Some
            &&& forall|k: int|
                #![trigger s2.windows[k]]
                s.windows.len() <= k < s2.windows.len() ==> exists|i: int|
                    0 <= i < n && #[trigger] vs[i].handle == s2.windows[k].handle
            &&& forall|i: int|
                0 <= i < n && #[trigger] has_nearest_workspace(s, vs[i]) && window_index_by_handle(s, vs[i].handle)
                    is None && (forall|i2: int| 0 <= i2 < i ==> vs[i2].handle != vs[i].handle)
                    ==> managed_in(s2, vs[i].handle, nearest_displayed_workspace(s, vs[i]))
        }),
    decreases n,
{
    if n > 0 {
        remanage_windows_law(s, vs, n - 1);
        let s1 = remanage_windows_upto(s, vs, n - 1);
        remanage_window_law(s1, vs[n - 1]);
        let s2 = remanage_windows_upto(s, vs, n);
        assert forall|i: int|
            0 <= i < n && #[trigger] has_nearest_workspace(s, vs[i]) implies window_index_by_handle(
                s2,
                vs[i].handle,
            ) is Some by {
            if i < n - 1 {
                lemma_found_window_stays(s1.windows, s2.windows, vs[i].handle);
            } else {
                assert(has_nearest_workspace(s1, vs[i]));
            }
        }
        assert forall|k: int| #![trigger s2.windows[k]] s.windows.len() <= k < s2.windows.len() implies exists|i: int|
            0 <= i < n && #[trigger] vs[i].handle == s2.windows[k].handle by {
            if k < s1.windows.len() {
                let i = choose|i: int| 0 <= i < n - 1 && #[trigger] vs[i].handle == s1.windows[k].handle;
                assert(vs[i].handle == s2.windows[k].handle);
            } else {
                assert(vs[n - 1].handle == s2.windows[k].handle);
            }
        }
        assert forall|i: int|
            0 <= i < n && #[trigger] has_nearest_workspace(s, vs[i]) && window_index_by_handle(s, vs[i].handle)
                is None && (forall|i2: int| 0 <= i2 < i ==> vs[i2].handle != vs[i].handle)
                implies managed_in(s2, vs[i].handle, nearest_displayed_workspace(s, vs[i])) by {
            let h = vs[i].handle;
            if i < n - 1 {
                assert(managed_in(s1, h, nearest_displayed_workspace(s, vs[i])));
                lemma_found_window_same(s1.windows, s2.windows, h);
                let k = window_index_by_handle(s1, h)->Some_0;
                lemma_window_by_handle_from(s1.windows, h, 0);
                assert(s2.windows[k] == s1.windows[k]);
            } else {
                lemma_window_by_handle_from(s.windows, h, 0);
                lemma_window_by_handle_from(s1.windows, h, 0);
                if window_index_by_handle(s1, h) is Some {
                    let k = window_index_by_handle(s1, h)->Some_0;
                    if k < s.windows.len() {
                        assert(s1.windows[k] == s.windows[k]);
                    } else {
                        let i2 = choose|i2: int| 0 <= i2 < n - 1 && #[trigger] vs[i2].handle == s1.windows[k].handle;
                        assert(vs[i2].handle != h);
                    }
                }
                assert(has_nearest_workspace(s1, vs[i]));
                assert(nearest_displayed_workspace(s1, vs[i]) == nearest_displayed_workspace(s, vs[i]));
                lemma_window_by_handle_from(s2.windows, h, 0);
                let k = s1.windows.len() as int;
                assert(s2.windows[k].handle == h);
                assert forall|l: int| 0 <= l < k implies #[trigger] s2.windows[l].handle != h by {
                    assert(s2.windows[l] == s1.windows[l]);
                    if l < s.windows.len() {
                        assert(s1.windows[l] == s.windows[l]);
                    } else {
                        let i2 = choose|i2: int| 0 <= i2 < n - 1 && #[trigger] vs[i2].handle == s1.windows[l].handle;
                        assert(vs[i2].handle != h);
                    }
                }
                assert(window_index_by_handle(s2, h) == Some(k));
            }
        }
    }
}

/// Finishing a resume keeps a well-formed state well formed, keeps every
/// managed window, manages every visible window whose nearest monitor
/// displays an existing workspace, and queues the root for a redraw last.
pub proof fn session_resume_law(s: StateView, visible: Option<Seq<VisibleWindowView>>)
    requires
        wf(s),
        visible matches Some(vs) ==> s.next_container_id + vs.len() < u64::MAX,
    ensures
        ({
            let s2 = session_resume_result(s, visible);
            &&& wf(s2)
            &&& s2.pending_sync.containers_to_redraw.last() == s.root_id
            &&& forall|k: int| 0 <= k < s.windows.len() ==> s2.windows[k] == s.windows[k]
            &&& visible matches Some(vs) ==> forall|i: int|
                0 <= i < vs.len() && #[trigger] has_nearest_workspace(s, vs[i]) ==> window_index_by_handle(
                    s2,
                    vs[i].handle,
                ) is Some
            &&& visible matches Some(vs) ==> forall|i: int|
                0 <= i < vs.len() && #[trigger] has_nearest_workspace(s, vs[i]) && window_index_by_handle(
                    s,
                    vs[i].handle,
                ) is None && (forall|i2: int| 0 <= i2 < i ==> vs[i2].handle != vs[i].handle)
                    ==> managed_in(s2, vs[i].handle, nearest_displayed_workspace(s, vs[i]))
        }),
{
    let s1 = match visible {
        Some(vs) => remanage_windows_upto(s, vs, vs.len() as int),
        None => s,
    };
    if let Some(vs) = visible {
        remanage_windows_law(s, vs, vs.len() as int);
    }
    lemma_wf_frame(s1, session_resume_result(s, visible));
}

/// A title change keeps a well-formed state well formed. A managed window
/// whose new title was read gets it, and nothing else changes; when the
/// title could not be read nothing changes; a window that was not managed
/// is managed afterwards, in the focused workspace, unless no workspace is
/// focused.
pub proof fn title_change_law(s: StateView, handle: isize, title: Option<Seq<char>>)
    requires
        wf(s),
        s.next_container_id < u64::MAX,
    ensures
        ({
            let (s2, r) = window_title_changed_result(s, handle, title);
            &&& wf(s2)
            &&& r is Ok ==> window_index_by_handle(s2, handle) is Some
            &&& r is Err ==> s2 == s && window_index_by_handle(s, handle) is None && focused_workspace_index(s) is None
            &&& (window_index_by_handle(s, handle) is None && r is Ok) ==> {
                &&& focused_workspace_index(s) is Some
                &&& s2.windows.len() == s.windows.len() + 1
                &&& window_index_by_handle(s2, handle) == Some(s.windows.len() as int)
                &&& s2.windows[s.windows.len() as int].workspace_id
                    == s.workspaces[focused_workspace_index(s)->Some_0].id
                &&& s2.windows[s.windows.len() as int].title == title_or_empty(title)
                &&& r == Ok::<TitleChangeOutcome, WmError>(
                    TitleChangeOutcome::Managed { window_id: s2.windows[s.windows.len() as int].id },
                )
            }
            &&& window_index_by_handle(s, handle) matches Some(k) ==> (title matches Some(t) ==> {
                &&& s2.windows[k].title == t
                &&& s2.windows.len() == s.windows.len()
                &&& forall|l: int| 0 <= l < s.windows.len() && l != k ==> s2.windows[l] == s.windows[l]
                &&& s2 == (StateView { windows: s2.windows, ..s })
                &&& r == Ok::<TitleChangeOutcome, WmError>(TitleChangeOutcome::RunWindowRules { window_id: s.windows[k].id })
            })
        }),
{
    lemma_window_by_handle_from(s.windows, handle, 0);
    match window_index_by_handle(s, handle) {
        Some(k) => {
            if let Some(t) = title {
                let s2 = window_title_changed_result(s, handle, title).0;
                assert(windows_wf(s2)) by {
                    assert forall|kk: int| #![trigger s2.windows[kk]] 0 <= kk < s2.windows.len() implies s2.windows[kk].id
                        < s2.next_container_id && has_workspace(s2, s2.windows[kk].workspace_id) by {
                        assert(s2.windows[kk].workspace_id == s.windows[kk].workspace_id);
                        let i = choose|i: int| 0 <= i < s.workspaces.len() && s.workspaces[i].id == s.windows[kk].workspace_id;
                        assert(s2.workspaces[i].id == s2.windows[kk].workspace_id);
                    }
                }
                assert(workspaces_wf(s2));
                lemma_monitors_wf_frame(s, s2);
                lemma_window_by_handle_from(s2.windows, handle, 0);
                assert(s2.windows[k].handle == handle);
            }
        },
        None => {
            manage_window_law(s, handle, title_or_empty(title), None);
        },
    }
}

} // verus!
