use glazewm_core::error::WmError;
use glazewm_core::model::{Rect, UserConfig, WmEvent, WmState, WorkspaceConfig};
use glazewm_core::workspace::{activate_workspace, focus_workspace, Direction, WorkspaceTarget};

fn entry(name: &str, keep_alive: bool, bind: Option<usize>) -> WorkspaceConfig {
    WorkspaceConfig { name: name.to_string(), keep_alive, bind_to_monitor: bind }
}

fn config(entries: Vec<WorkspaceConfig>) -> UserConfig {
    UserConfig { workspaces: entries }
}

fn rect(left: i32, top: i32, right: i32, bottom: i32) -> Rect {
    Rect { left, top, right, bottom }
}

/// One monitor showing workspace "1", which has focus.
fn one_monitor(cfg: &UserConfig) -> WmState {
    let mut state = WmState::new();
    let monitor = state.add_monitor(100, rect(0, 0, 1920, 1080));
    state.focused_container = Some(monitor);
    activate_workspace(&"1".to_string(), &mut state, cfg).unwrap();
    let ws = state.workspaces[0].id;
    state.focused_container = Some(ws);
    state
}

fn focused_name(state: &WmState) -> String {
    let i = state.focused_workspace().expect("a workspace is focused");
    state.workspaces[i].name.clone()
}

fn names(state: &WmState) -> Vec<String> {
    state.workspaces.iter().map(|w| w.name.clone()).collect()
}

#[test]
fn focus_by_name_activates_and_removes_empty_previous() {
    let cfg = config(vec![entry("1", false, None), entry("2", false, None)]);
    let mut state = one_monitor(&cfg);
    let old_id = state.workspaces[0].id;
    focus_workspace(WorkspaceTarget::Name("2".to_string()), &mut state, &cfg).unwrap();
    assert_eq!(names(&state), vec!["2".to_string()]);
    assert_eq!(focused_name(&state), "2");
    let new_id = state.workspaces[0].id;
    assert_eq!(state.monitors[0].displayed_workspace, Some(new_id));
    assert_eq!(state.recent_workspace_name, Some("1".to_string()));
    assert!(!state.is_focus_synced);
    assert!(state.pending_sync.focus_change);
    assert!(state.pending_sync.cursor_jump);
    assert_eq!(state.pending_sync.containers_to_redraw, vec![old_id, new_id]);
    assert_eq!(
        state.events,
        vec![
            WmEvent::WorkspaceActivated { workspace_id: old_id },
            WmEvent::WorkspaceActivated { workspace_id: new_id },
            WmEvent::WorkspaceDeactivated { workspace_id: old_id },
        ]
    );
}

#[test]
fn focus_keeps_previous_when_kept_alive() {
    let cfg = config(vec![entry("1", true, None), entry("2", false, None)]);
    let mut state = one_monitor(&cfg);
    focus_workspace(WorkspaceTarget::Name("2".to_string()), &mut state, &cfg).unwrap();
    assert_eq!(names(&state), vec!["1".to_string(), "2".to_string()]);
    assert_eq!(focused_name(&state), "2");
}

#[test]
fn focus_keeps_previous_when_it_holds_a_window() {
    let cfg = config(vec![entry("1", false, None), entry("2", false, None)]);
    let mut state = one_monitor(&cfg);
    let window = glazewm_core::events::manage_window(7, "editor".to_string(), None, &mut state).unwrap();
    state.focused_container = Some(window);
    focus_workspace(WorkspaceTarget::Name("2".to_string()), &mut state, &cfg).unwrap();
    assert_eq!(names(&state), vec!["1".to_string(), "2".to_string()]);
    // Focusing "1" again gives focus back to its window.
    focus_workspace(WorkspaceTarget::Name("1".to_string()), &mut state, &cfg).unwrap();
    assert_eq!(state.focused_container, Some(window));
    // "2" was empty and not kept alive: it is gone.
    assert_eq!(names(&state), vec!["1".to_string()]);
}

#[test]
fn focus_recent_returns_to_previous_workspace() {
    let cfg = config(vec![entry("1", false, None), entry("2", false, None)]);
    let mut state = one_monitor(&cfg);
    focus_workspace(WorkspaceTarget::Name("2".to_string()), &mut state, &cfg).unwrap();
    focus_workspace(WorkspaceTarget::Recent, &mut state, &cfg).unwrap();
    assert_eq!(focused_name(&state), "1");
    assert_eq!(state.recent_workspace_name, Some("2".to_string()));
}

#[test]
fn focus_recent_without_recent_does_nothing() {
    let cfg = config(vec![entry("1", false, None)]);
    let mut state = one_monitor(&cfg);
    let events_before = state.events.len();
    focus_workspace(WorkspaceTarget::Recent, &mut state, &cfg).unwrap();
    assert_eq!(focused_name(&state), "1");
    assert_eq!(state.events.len(), events_before);
    assert!(state.is_focus_synced);
    assert!(state.recent_workspace_name.is_none());
}

#[test]
fn focus_same_workspace_keeps_it_and_records_it_as_recent() {
    let cfg = config(vec![entry("1", false, None)]);
    let mut state = one_monitor(&cfg);
    focus_workspace(WorkspaceTarget::Name("1".to_string()), &mut state, &cfg).unwrap();
    assert_eq!(names(&state), vec!["1".to_string()]);
    assert_eq!(state.recent_workspace_name, Some("1".to_string()));
}

#[test]
fn focus_next_and_previous_follow_config_order_and_wrap() {
    let cfg = config(vec![entry("1", false, None), entry("2", false, None), entry("3", false, None)]);
    let mut state = one_monitor(&cfg);
    focus_workspace(WorkspaceTarget::Next, &mut state, &cfg).unwrap();
    assert_eq!(focused_name(&state), "2");
    focus_workspace(WorkspaceTarget::Next, &mut state, &cfg).unwrap();
    assert_eq!(focused_name(&state), "3");
    focus_workspace(WorkspaceTarget::Next, &mut state, &cfg).unwrap();
    assert_eq!(focused_name(&state), "1");
    focus_workspace(WorkspaceTarget::Previous, &mut state, &cfg).unwrap();
    assert_eq!(focused_name(&state), "3");
}

#[test]
fn focus_next_of_workspace_missing_from_config_does_nothing() {
    let cfg = config(vec![entry("1", false, None), entry("2", false, None)]);
    let mut state = one_monitor(&cfg);
    state.workspaces[0].name = "other".to_string();
    focus_workspace(WorkspaceTarget::Next, &mut state, &cfg).unwrap();
    assert_eq!(focused_name(&state), "other");
}

#[test]
fn focus_direction_picks_nearest_monitor() {
    let cfg = config(vec![entry("1", false, Some(0)), entry("2", false, Some(1)), entry("3", false, Some(2))]);
    let mut state = WmState::new();
    state.add_monitor(1, rect(0, 0, 100, 100));
    state.add_monitor(2, rect(200, 0, 300, 100));
    state.add_monitor(3, rect(100, 0, 200, 100));
    for name in ["1", "2", "3"] {
        activate_workspace(&name.to_string(), &mut state, &cfg).unwrap();
    }
    state.focused_container = Some(state.workspaces[0].id);
    focus_workspace(WorkspaceTarget::Direction(Direction::Right), &mut state, &cfg).unwrap();
    // The monitor at x = 100 is nearer than the one at x = 200.
    assert_eq!(focused_name(&state), "3");
    focus_workspace(WorkspaceTarget::Direction(Direction::Left), &mut state, &cfg).unwrap();
    assert_eq!(focused_name(&state), "1");
    // Nothing lies above: nothing changes.
    focus_workspace(WorkspaceTarget::Direction(Direction::Up), &mut state, &cfg).unwrap();
    assert_eq!(focused_name(&state), "1");
    // Workspaces on other monitors stay when another is shown.
    assert_eq!(state.workspaces.len(), 3);
}

#[test]
fn focus_without_focused_workspace_fails() {
    let cfg = config(vec![entry("1", false, None)]);
    let mut state = one_monitor(&cfg);
    state.focused_container = None;
    assert_eq!(
        focus_workspace(WorkspaceTarget::Name("1".to_string()), &mut state, &cfg),
        Err(WmError::NoFocusedWorkspace)
    );
    state.focused_container = Some(state.root_id);
    assert_eq!(focus_workspace(WorkspaceTarget::Recent, &mut state, &cfg), Err(WmError::NoFocusedWorkspace));
}

#[test]
fn focus_unknown_name_fails_and_changes_nothing() {
    let cfg = config(vec![entry("1", false, None)]);
    let mut state = one_monitor(&cfg);
    let events_before = state.events.clone();
    assert_eq!(
        focus_workspace(WorkspaceTarget::Name("9".to_string()), &mut state, &cfg),
        Err(WmError::WorkspaceNotFound)
    );
    assert_eq!(state.events, events_before);
    assert_eq!(names(&state), vec!["1".to_string()]);
}

#[test]
fn focus_with_detached_workspace_fails() {
    let cfg = config(vec![entry("1", false, None)]);
    let mut state = one_monitor(&cfg);
    state.workspaces[0].monitor_id = 999;
    assert_eq!(
        focus_workspace(WorkspaceTarget::Name("1".to_string()), &mut state, &cfg),
        Err(WmError::NoDisplayedWorkspace)
    );
}

#[test]
fn activate_without_monitor_fails() {
    let cfg = config(vec![entry("1", false, None)]);
    let mut state = WmState::new();
    state.add_monitor(1, rect(0, 0, 10, 10));
    state.focused_container = Some(state.root_id);
    assert_eq!(activate_workspace(&"1".to_string(), &mut state, &cfg), Err(WmError::NoTargetMonitor));
    assert!(state.workspaces.is_empty());
}

#[test]
fn activate_active_workspace_fails() {
    let cfg = config(vec![entry("1", false, None)]);
    let mut state = one_monitor(&cfg);
    assert_eq!(activate_workspace(&"1".to_string(), &mut state, &cfg), Err(WmError::WorkspaceNotFound));
}

#[test]
fn activate_binds_to_configured_monitor() {
    let cfg = config(vec![entry("1", false, None), entry("2", true, Some(1))]);
    let mut state = one_monitor(&cfg);
    let second = state.add_monitor(200, rect(1920, 0, 3840, 1080));
    activate_workspace(&"2".to_string(), &mut state, &cfg).unwrap();
    let ws = &state.workspaces[1];
    assert_eq!(ws.monitor_id, second);
    assert!(ws.keep_alive);
    assert_eq!(state.monitors[1].displayed_workspace, Some(ws.id));
    // A monitor that already displays a workspace keeps displaying it.
    let first_displayed = state.monitors[0].displayed_workspace;
    let cfg3 = config(vec![entry("1", false, None), entry("2", true, Some(1)), entry("3", false, Some(0))]);
    activate_workspace(&"3".to_string(), &mut state, &cfg3).unwrap();
    assert_eq!(state.monitors[0].displayed_workspace, first_displayed);
}

#[test]
fn error_messages() {
    assert_eq!(WmError::NoFocusedWorkspace.message(), "No workspace is currently focused.");
    assert_eq!(WmError::NoDisplayedWorkspace.message(), "No workspace is currently displayed.");
    assert_eq!(WmError::NoTargetMonitor.message(), "Failed to get a target monitor for the workspace.");
    assert_eq!(
        WmError::WorkspaceNotFound.message(),
        "Workspace with the given name doesn't exist or is already active."
    );
}
