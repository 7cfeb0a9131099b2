use glazewm_core::error::WmError;
use glazewm_core::events::{
    handle_session_change, handle_window_title_changed, manage_window, remanage_after_session_resume,
    SessionChangeAction, TitleChangeOutcome, VisibleWindow,
};
use glazewm_core::model::{Rect, UserConfig, WmEvent, WmState, WorkspaceConfig};
use glazewm_core::session::SessionEvent;
use glazewm_core::workspace::activate_workspace;

fn state_with_workspace() -> WmState {
    let cfg = UserConfig {
        workspaces: vec![WorkspaceConfig { name: "1".to_string(), keep_alive: false, bind_to_monitor: Some(0) }],
    };
    let mut state = WmState::new();
    state.add_monitor(500, Rect { left: 0, top: 0, right: 800, bottom: 600 });
    activate_workspace(&"1".to_string(), &mut state, &cfg).unwrap();
    state.focused_container = Some(state.workspaces[0].id);
    state
}

#[test]
fn lock_and_suspend_pause() {
    for event in [SessionEvent::Locked, SessionEvent::Suspending] {
        let mut state = WmState::new();
        assert_eq!(handle_session_change(&event, &mut state), SessionChangeAction::Nothing);
        assert!(state.is_paused);
        assert_eq!(state.events, vec![WmEvent::PauseChanged { is_paused: true }]);
    }
}

#[test]
fn unlock_after_lock_unpauses_and_asks_for_refresh() {
    for event in [SessionEvent::Unlocked, SessionEvent::Resumed] {
        let mut state = WmState::new();
        handle_session_change(&SessionEvent::Locked, &mut state);
        assert_eq!(handle_session_change(&event, &mut state), SessionChangeAction::RefreshDisplaysAndRemanage);
        assert!(!state.is_paused);
        assert_eq!(
            state.events,
            vec![WmEvent::PauseChanged { is_paused: true }, WmEvent::PauseChanged { is_paused: false }]
        );
    }
}

#[test]
fn resume_remanages_lost_windows_and_redraws() {
    let mut state = state_with_workspace();
    let kept = manage_window(1, "kept".to_string(), None, &mut state).unwrap();
    let visible = vec![
        VisibleWindow { handle: 1, title: "kept".to_string(), nearest_monitor: Some(500) },
        VisibleWindow { handle: 2, title: "lost".to_string(), nearest_monitor: Some(500) },
        VisibleWindow { handle: 2, title: "lost".to_string(), nearest_monitor: Some(500) },
        VisibleWindow { handle: 3, title: "nowhere".to_string(), nearest_monitor: Some(999) },
        VisibleWindow { handle: 4, title: "no monitor".to_string(), nearest_monitor: None },
    ];
    remanage_after_session_resume(Some(visible), &mut state);
    let handles: Vec<isize> = state.windows.iter().map(|w| w.handle).collect();
    assert_eq!(handles, vec![1, 2]);
    assert_eq!(state.windows[0].id, kept);
    assert_eq!(state.windows[1].title, "lost");
    assert_eq!(state.windows[1].workspace_id, state.workspaces[0].id);
    assert_eq!(state.pending_sync.containers_to_redraw, vec![state.root_id]);
}

#[test]
fn resume_without_window_list_only_redraws() {
    let mut state = state_with_workspace();
    remanage_after_session_resume(None, &mut state);
    assert!(state.windows.is_empty());
    assert_eq!(state.pending_sync.containers_to_redraw, vec![state.root_id]);
}

#[test]
fn title_change_updates_managed_window() {
    let mut state = state_with_workspace();
    let id = manage_window(9, "old".to_string(), None, &mut state).unwrap();
    let r = handle_window_title_changed(9, Some("new".to_string()), &mut state);
    assert_eq!(r, Ok(TitleChangeOutcome::RunWindowRules { window_id: id }));
    assert_eq!(state.windows[0].title, "new");
    assert_eq!(state.windows.len(), 1);
}

#[test]
fn title_change_with_unreadable_title_changes_nothing() {
    let mut state = state_with_workspace();
    manage_window(9, "old".to_string(), None, &mut state).unwrap();
    assert_eq!(handle_window_title_changed(9, None, &mut state), Ok(TitleChangeOutcome::TitleUnavailable));
    assert_eq!(state.windows[0].title, "old");
}

#[test]
fn title_change_of_unmanaged_window_manages_it() {
    let mut state = state_with_workspace();
    let next = state.next_container_id;
    let r = handle_window_title_changed(5, Some("late".to_string()), &mut state);
    assert_eq!(r, Ok(TitleChangeOutcome::Managed { window_id: next }));
    assert_eq!(state.windows.len(), 1);
    assert_eq!(state.windows[0].handle, 5);
    assert_eq!(state.windows[0].title, "late");
    assert_eq!(state.windows[0].workspace_id, state.workspaces[0].id);
}

#[test]
fn title_change_of_unmanaged_window_without_focus_fails() {
    let mut state = state_with_workspace();
    state.focused_container = None;
    assert_eq!(handle_window_title_changed(5, Some("late".to_string()), &mut state), Err(WmError::NoFocusedWorkspace));
    assert!(state.windows.is_empty());
}
