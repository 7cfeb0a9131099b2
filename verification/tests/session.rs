use glazewm_core::session::{
    distributed_center_notifications, session_event_from_notification, session_message_outcome,
    workspace_center_notifications, NotificationEvent, Registration, SessionEvent, WndProcOutcome,
};

const WM_WTSSESSION_CHANGE: u32 = 0x02B1;
const WM_POWERBROADCAST: u32 = 0x0218;

#[test]
fn session_change_messages_are_consumed() {
    assert_eq!(
        session_message_outcome(WM_WTSSESSION_CHANGE, 7),
        WndProcOutcome { event: Some(SessionEvent::Locked), result: Some(0) }
    );
    assert_eq!(
        session_message_outcome(WM_WTSSESSION_CHANGE, 8),
        WndProcOutcome { event: Some(SessionEvent::Unlocked), result: Some(0) }
    );
    // Other session changes (e.g. a remote connect) send nothing but are consumed.
    assert_eq!(session_message_outcome(WM_WTSSESSION_CHANGE, 1), WndProcOutcome { event: None, result: Some(0) });
}

#[test]
fn power_broadcasts_are_not_consumed() {
    assert_eq!(
        session_message_outcome(WM_POWERBROADCAST, 4),
        WndProcOutcome { event: Some(SessionEvent::Suspending), result: None }
    );
    assert_eq!(
        session_message_outcome(WM_POWERBROADCAST, 18),
        WndProcOutcome { event: Some(SessionEvent::Resumed), result: None }
    );
    assert_eq!(
        session_message_outcome(WM_POWERBROADCAST, 7),
        WndProcOutcome { event: Some(SessionEvent::Resumed), result: None }
    );
    assert_eq!(session_message_outcome(WM_POWERBROADCAST, 10), WndProcOutcome { event: None, result: None });
}

#[test]
fn only_low_bits_of_wparam_count() {
    if usize::BITS == 64 {
        let wparam = ((1u64 << 32) | 7) as usize;
        assert_eq!(session_message_outcome(WM_WTSSESSION_CHANGE, wparam).event, Some(SessionEvent::Locked));
    }
}

#[test]
fn other_messages_are_ignored() {
    assert_eq!(session_message_outcome(0x0010, 7), WndProcOutcome { event: None, result: None });
}

#[test]
fn notifications_map_to_session_events() {
    let cases = [
        (NotificationEvent::WorkspaceSessionDidResignActive, Some(SessionEvent::Locked)),
        (NotificationEvent::ScreenIsLocked, Some(SessionEvent::Locked)),
        (NotificationEvent::WorkspaceSessionDidBecomeActive, Some(SessionEvent::Unlocked)),
        (NotificationEvent::WorkspaceScreensDidWake, Some(SessionEvent::Unlocked)),
        (NotificationEvent::ScreenIsUnlocked, Some(SessionEvent::Unlocked)),
        (NotificationEvent::WorkspaceWillSleep, Some(SessionEvent::Suspending)),
        (NotificationEvent::WorkspaceScreensDidSleep, Some(SessionEvent::Suspending)),
        (NotificationEvent::WorkspaceDidWake, Some(SessionEvent::Resumed)),
        (NotificationEvent::Other, None),
    ];
    for (n, e) in cases {
        assert_eq!(session_event_from_notification(n), e);
    }
}

#[test]
fn observed_notifications_all_give_events() {
    let workspace = workspace_center_notifications();
    assert_eq!(workspace.len(), 6);
    let distributed = distributed_center_notifications();
    assert_eq!(distributed, vec![NotificationEvent::ScreenIsLocked, NotificationEvent::ScreenIsUnlocked]);
    for n in workspace.into_iter().chain(distributed) {
        assert!(session_event_from_notification(n).is_some());
    }
}

#[test]
fn terminate_releases_handle_once() {
    let mut reg = Registration::new(42usize);
    assert!(reg.is_active());
    assert_eq!(reg.terminate(), Some(42));
    assert!(!reg.is_active());
    assert_eq!(reg.terminate(), None);
}
