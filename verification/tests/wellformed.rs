use glazewm_core::events::{handle_session_change, handle_window_title_changed, remanage_after_session_resume, VisibleWindow};
use glazewm_core::model::{Rect, UserConfig, WmState, WorkspaceConfig};
use glazewm_core::session::SessionEvent;
use glazewm_core::workspace::{activate_workspace, focus_workspace, Direction, WorkspaceTarget};

/// The well-formedness conditions, checked on a concrete state.
fn assert_well_formed(s: &WmState) {
    for (i, a) in s.workspaces.iter().enumerate() {
        assert!(a.id < s.next_container_id);
        assert!(s.monitors.iter().any(|m| m.id == a.monitor_id));
        for b in &s.workspaces[i + 1..] {
            assert_ne!(a.id, b.id);
            assert_ne!(a.name, b.name);
        }
    }
    for (i, m) in s.monitors.iter().enumerate() {
        assert!(m.id < s.next_container_id);
        for n in &s.monitors[i + 1..] {
            assert_ne!(m.id, n.id);
        }
        match m.displayed_workspace {
            Some(w) => assert!(s.workspaces.iter().any(|ws| ws.id == w && ws.monitor_id == m.id)),
            None => assert!(s.workspaces.iter().all(|ws| ws.monitor_id != m.id)),
        }
    }
    for (k, w) in s.windows.iter().enumerate() {
        assert!(w.id < s.next_container_id);
        assert!(s.workspaces.iter().any(|ws| ws.id == w.workspace_id));
        assert!(s.workspaces.iter().all(|ws| ws.id != w.id));
        for v in &s.windows[k + 1..] {
            assert_ne!(w.id, v.id);
        }
    }
}

#[test]
fn commands_keep_state_well_formed() {
    let cfg = UserConfig {
        workspaces: ["1", "2", "3", "4"]
            .iter()
            .enumerate()
            .map(|(i, n)| WorkspaceConfig {
                name: n.to_string(),
                keep_alive: i == 3,
                bind_to_monitor: if i == 2 { Some(1) } else { None },
            })
            .collect(),
    };
    let mut s = WmState::new();
    assert_well_formed(&s);
    let left = s.add_monitor(10, Rect { left: 0, top: 0, right: 100, bottom: 100 });
    s.add_monitor(20, Rect { left: 100, top: 0, right: 200, bottom: 100 });
    assert_well_formed(&s);
    s.focused_container = Some(left);
    activate_workspace(&"1".to_string(), &mut s, &cfg).unwrap();
    activate_workspace(&"3".to_string(), &mut s, &cfg).unwrap();
    s.focused_container = Some(s.workspaces[0].id);
    assert_well_formed(&s);

    let targets = vec![
        WorkspaceTarget::Name("2".to_string()),
        WorkspaceTarget::Next,
        WorkspaceTarget::Direction(Direction::Right),
        WorkspaceTarget::Recent,
        WorkspaceTarget::Previous,
        WorkspaceTarget::Name("4".to_string()),
        WorkspaceTarget::Direction(Direction::Left),
        WorkspaceTarget::Next,
    ];
    for (i, target) in targets.into_iter().enumerate() {
        focus_workspace(target, &mut s, &cfg).unwrap();
        assert_well_formed(&s);
        let handle = 1000 + i as isize;
        handle_window_title_changed(handle, Some(format!("window {}", i)), &mut s).unwrap();
        assert_well_formed(&s);
    }
    handle_session_change(&SessionEvent::Locked, &mut s);
    handle_session_change(&SessionEvent::Resumed, &mut s);
    remanage_after_session_resume(
        Some(vec![
            VisibleWindow { handle: 1000, title: "again".to_string(), nearest_monitor: Some(10) },
            VisibleWindow { handle: 2000, title: "new".to_string(), nearest_monitor: Some(20) },
        ]),
        &mut s,
    );
    assert_well_formed(&s);
    assert!(s.windows.iter().any(|w| w.handle == 2000));
}
