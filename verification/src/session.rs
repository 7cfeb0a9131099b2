//! Session events, how platform notifications map onto them, and the
//! registration that a session listener holds until it is terminated.

use vstd::prelude::*;

verus! {

/// Events emitted by the session listener.
#[derive(Clone, Copy, Debug, PartialEq, Eq, Structural)]
pub enum SessionEvent {
    /// The session was locked (e.g. screen lock or user switch away).
    Locked,
    /// The session was unlocked (e.g. user logged back in).
    Unlocked,
    /// The system is entering sleep/hibernation.
    Suspending,
    /// The system is resuming from sleep/hibernation.
    Resumed,
}

// Windows: session messages.

/// `WM_WTSSESSION_CHANGE` of the `windows` crate, 689.
#[verifier::external_body]
fn wm_wtssession_change() -> (v: u32)
    ensures
        v == 689,
{
    windows::Win32::UI::WindowsAndMessaging::WM_WTSSESSION_CHANGE
}

/// `WM_POWERBROADCAST` of the `windows` crate, 536.
#[verifier::external_body]
fn wm_powerbroadcast() -> (v: u32)
    ensures
        v == 536,
{
    windows::Win32::UI::WindowsAndMessaging::WM_POWERBROADCAST
}

/// `WTS_SESSION_LOCK` of the `windows` crate, 7.
#[verifier::external_body]
fn wts_session_lock() -> (v: u32)
    ensures
        v == 7,
{
    windows::Win32::UI::WindowsAndMessaging::WTS_SESSION_LOCK
}

/// `WTS_SESSION_UNLOCK` of the `windows` crate, 8.
#[verifier::external_body]
fn wts_session_unlock() -> (v: u32)
    ensures
        v == 8,
{
    windows::Win32::UI::WindowsAndMessaging::WTS_SESSION_UNLOCK
}

/// `PBT_APMSUSPEND` of the `windows` crate, 4.
#[verifier::external_body]
fn pbt_apmsuspend() -> (v: u32)
    ensures
        v == 4,
{
    windows::Win32::UI::WindowsAndMessaging::PBT_APMSUSPEND
}

/// `PBT_APMRESUMEAUTOMATIC` of the `windows` crate, 18.
#[verifier::external_body]
fn pbt_apmresumeautomatic() -> (v: u32)
    ensures
        v == 18,
{
    windows::Win32::UI::WindowsAndMessaging::PBT_APMRESUMEAUTOMATIC
}

/// `PBT_APMRESUMESUSPEND` of the `windows` crate, 7.
#[verifier::external_body]
fn pbt_apmresumesuspend() -> (v: u32)
    ensures
        v == 7,
{
    windows::Win32::UI::WindowsAndMessaging::PBT_APMRESUMESUSPEND
}

/// What the listener's window procedure does with one message: the session
/// event it sends, if any, and the value it answers the message with, or
/// `None` when it leaves the message to the other handlers.
#[derive(Clone, Copy, Debug, PartialEq, Eq, Structural)]
pub struct WndProcOutcome {
    pub event: Option<SessionEvent>,
    pub result: Option<isize>,
}

/// The outcome for a message with its `wparam`.
///
/// `WM_WTSSESSION_CHANGE` (689) is answered with 0; its code (the low 32
/// bits of `wparam`) `WTS_SESSION_LOCK` (7) gives `Locked` and
/// `WTS_SESSION_UNLOCK` (8) gives `Unlocked`. `WM_POWERBROADCAST` (536) is
/// not consumed, so that the display listener also sees it; its code
/// `PBT_APMSUSPEND` (4) gives `Suspending`, and `PBT_APMRESUMEAUTOMATIC`
/// (18) and `PBT_APMRESUMESUSPEND` (7) give `Resumed`. Other messages give
/// nothing.
pub open spec fn session_message_outcome_spec(message: u32, wparam: usize) -> WndProcOutcome {
    let code = wparam as u32;
    if message == 689 {
        WndProcOutcome {
            event: if code == 7 {
                Some(SessionEvent::Locked)
            } else if code == 8 {
                Some(SessionEvent::Unlocked)
            } else {
                None
            },
            result: Some(0),
        }
    } else if message == 536 {
        WndProcOutcome {
            event: if code == 4 {
                Some(SessionEvent::Suspending)
            } else if code == 18 || code == 7 {
                Some(SessionEvent::Resumed)
            } else {
                None
            },
            result: None,
        }
    } else {
        WndProcOutcome { event: None, result: None }
    }
}

/// How a message maps to a session event, code by code: `Locked` exactly for
/// `WM_WTSSESSION_CHANGE` with `WTS_SESSION_LOCK`, `Unlocked` exactly for
/// `WM_WTSSESSION_CHANGE` with `WTS_SESSION_UNLOCK`, `Suspending` exactly
/// for `WM_POWERBROADCAST` with `PBT_APMSUSPEND`, `Resumed` exactly for
/// `WM_POWERBROADCAST` with `PBT_APMRESUMEAUTOMATIC` or
/// `PBT_APMRESUMESUSPEND`, and no event for any other message or code (the
/// code being the low 32 bits of `wparam`). Exactly the session-change
/// messages are answered, with 0; power broadcasts are left to the other
/// handlers.
pub proof fn session_message_law(message: u32, wparam: usize)
    ensures
        ({
            let r = session_message_outcome_spec(message, wparam);
            let code = wparam as u32;
            &&& (r.event == Some(SessionEvent::Locked)) <==> (message == 689 && code == 7)
            &&& (r.event == Some(SessionEvent::Unlocked)) <==> (message == 689 && code == 8)
            &&& (r.event == Some(SessionEvent::Suspending)) <==> (message == 536 && code == 4)
            &&& (r.event == Some(SessionEvent::Resumed)) <==> (message == 536 && (code == 18 || code == 7))
            &&& (r.event is None) <==> !((message == 689 && (code == 7 || code == 8)) || (message == 536 && (
            code == 4 || code == 18 || code == 7)))
            &&& (r.result == Some(0isize)) <==> message == 689
            &&& (r.result is None) <==> message != 689
        }),
{
}

/// What the session listener's window procedure does with a message.
pub fn session_message_outcome(message: u32, wparam: usize) -> (r: WndProcOutcome)
    ensures
        r == session_message_outcome_spec(message, wparam),
{
    let code = wparam as u32;
    if message == wm_wtssession_change() {
        let event = if code == wts_session_lock() {
            Some(SessionEvent::Locked)
        } else if code == wts_session_unlock() {
            Some(SessionEvent::Unlocked)
        } else {
            None
        };
        WndProcOutcome { event, result: Some(0) }
    } else if message == wm_powerbroadcast() {
        let event = if code == pbt_apmsuspend() {
            Some(SessionEvent::Suspending)
        } else if code == pbt_apmresumeautomatic() || code == pbt_apmresumesuspend() {
            Some(SessionEvent::Resumed)
        } else {
            None
        };
        // The message is not consumed: the display listener also handles
        // WM_POWERBROADCAST for its suspend tracking.
        WndProcOutcome { event, result: None }
    } else {
        WndProcOutcome { event: None, result: None }
    }
}

// macOS: workspace and distributed notifications.

/// Notifications that the macOS session listener observes.
#[derive(Clone, Copy, Debug, PartialEq, Eq, Structural)]
pub enum NotificationEvent {
    WorkspaceSessionDidResignActive,
    WorkspaceSessionDidBecomeActive,
    WorkspaceWillSleep,
    WorkspaceDidWake,
    WorkspaceScreensDidSleep,
    WorkspaceScreensDidWake,
    ScreenIsLocked,
    ScreenIsUnlocked,
    /// Any other notification.
    Other,
}

/// The session event that a notification stands for.
pub open spec fn session_event_of_notification(n: NotificationEvent) -> Option<SessionEvent> {
    match n {
        NotificationEvent::WorkspaceSessionDidResignActive | NotificationEvent::ScreenIsLocked => Some(
            SessionEvent::Locked,
        ),
        NotificationEvent::WorkspaceSessionDidBecomeActive | NotificationEvent::WorkspaceScreensDidWake
        | NotificationEvent::ScreenIsUnlocked => Some(SessionEvent::Unlocked),
        NotificationEvent::WorkspaceWillSleep | NotificationEvent::WorkspaceScreensDidSleep => Some(
            SessionEvent::Suspending,
        ),
        NotificationEvent::WorkspaceDidWake => Some(SessionEvent::Resumed),
        NotificationEvent::Other => None,
    }
}

/// The session event that a notification stands for, if any.
pub fn session_event_from_notification(n: NotificationEvent) -> (r: Option<SessionEvent>)
    ensures
        r == session_event_of_notification(n),
{
    match n {
        NotificationEvent::WorkspaceSessionDidResignActive | NotificationEvent::ScreenIsLocked => Some(
            SessionEvent::Locked,
        ),
        NotificationEvent::WorkspaceSessionDidBecomeActive | NotificationEvent::WorkspaceScreensDidWake
        | NotificationEvent::ScreenIsUnlocked => Some(SessionEvent::Unlocked),
        NotificationEvent::WorkspaceWillSleep | NotificationEvent::WorkspaceScreensDidSleep => Some(
            SessionEvent::Suspending,
        ),
        NotificationEvent::WorkspaceDidWake => Some(SessionEvent::Resumed),
        NotificationEvent::Other => None,
    }
}

/// Which notifications give which event: `Locked` exactly for the session
/// resigning active and the screen locking; `Unlocked` exactly for the
/// session becoming active, the screens waking and the screen unlocking;
/// `Suspending` exactly for the workspace going to sleep and the screens
/// sleeping; `Resumed` exactly for the workspace waking; nothing for any
/// other notification.
pub proof fn notification_law(n: NotificationEvent)
    ensures
        (session_event_of_notification(n) == Some(SessionEvent::Locked)) <==> (n
            == NotificationEvent::WorkspaceSessionDidResignActive || n == NotificationEvent::ScreenIsLocked),
        (session_event_of_notification(n) == Some(SessionEvent::Unlocked)) <==> (n
            == NotificationEvent::WorkspaceSessionDidBecomeActive || n == NotificationEvent::WorkspaceScreensDidWake
            || n == NotificationEvent::ScreenIsUnlocked),
        (session_event_of_notification(n) == Some(SessionEvent::Suspending)) <==> (n
            == NotificationEvent::WorkspaceWillSleep || n == NotificationEvent::WorkspaceScreensDidSleep),
        (session_event_of_notification(n) == Some(SessionEvent::Resumed)) <==> n
            == NotificationEvent::WorkspaceDidWake,
        (session_event_of_notification(n) is None) <==> n == NotificationEvent::Other,
{
}

/// The session and power notifications observed on the workspace
/// notification center.
pub open spec fn workspace_center_notifications_spec() -> Seq<NotificationEvent> {
    seq![
        NotificationEvent::WorkspaceSessionDidResignActive,
        NotificationEvent::WorkspaceSessionDidBecomeActive,
        NotificationEvent::WorkspaceWillSleep,
        NotificationEvent::WorkspaceDidWake,
        NotificationEvent::WorkspaceScreensDidSleep,
        NotificationEvent::WorkspaceScreensDidWake,
    ]
}

/// The screen lock notifications observed on the distributed notification
/// center, the most reliable ones for screen lock and unlock.
pub open spec fn distributed_center_notifications_spec() -> Seq<NotificationEvent> {
    seq![NotificationEvent::ScreenIsLocked, NotificationEvent::ScreenIsUnlocked]
}

/// The notifications to observe on the workspace notification center.
pub fn workspace_center_notifications() -> (r: Vec<NotificationEvent>)
    ensures
        r@ == workspace_center_notifications_spec(),
{
    let r = vec![
        NotificationEvent::WorkspaceSessionDidResignActive,
        NotificationEvent::WorkspaceSessionDidBecomeActive,
        NotificationEvent::WorkspaceWillSleep,
        NotificationEvent::WorkspaceDidWake,
        NotificationEvent::WorkspaceScreensDidSleep,
        NotificationEvent::WorkspaceScreensDidWake,
    ];
    assert(r@ =~= workspace_center_notifications_spec());
    r
}

/// The notifications to observe on the distributed notification center.
pub fn distributed_center_notifications() -> (r: Vec<NotificationEvent>)
    ensures
        r@ == distributed_center_notifications_spec(),
{
    let r = vec![NotificationEvent::ScreenIsLocked, NotificationEvent::ScreenIsUnlocked];
    assert(r@ =~= distributed_center_notifications_spec());
    r
}

/// Every notification that the macOS listener observes stands for a
/// session event.
pub proof fn observed_notifications_are_session_events()
    ensures
        forall|i: int|
            0 <= i < workspace_center_notifications_spec().len() ==> #[trigger] session_event_of_notification(
                workspace_center_notifications_spec()[i],
            ) is Some,
        forall|i: int|
            0 <= i < distributed_center_notifications_spec().len() ==> #[trigger] session_event_of_notification(
                distributed_center_notifications_spec()[i],
            ) is Some,
{
}

// Registration.

/// What a session listener holds while it listens: the callback id on
/// Windows, the notification observer on macOS. Terminating hands it out
/// once, so that it is released once, however often termination is asked.
#[derive(Debug)]
pub struct Registration<T> {
    pub handle: Option<T>,
}

/// A registration after termination, and the handle that termination hands
/// out.
pub open spec fn terminated<T>(reg: Registration<T>) -> (Registration<T>, Option<T>) {
    (Registration { handle: None }, reg.handle)
}

impl<T> Registration<T> {
    /// A registration that holds `handle`.
    pub fn new(handle: T) -> (r: Registration<T>)
        ensures
            r.handle == Some(handle),
    {
        Registration { handle: Some(handle) }
    }

    /// Whether the registration still holds its handle.
    pub fn is_active(&self) -> (r: bool)
        ensures
            r == self.handle is Some,
    {
        self.handle.is_some()
    }

    /// Terminates the registration: returns the handle to release, if it
    /// was not released before.
    pub fn terminate(&mut self) -> (r: Option<T>)
        ensures
            (*final(self), r) == terminated(*old(self)),
    {
        self.handle.take()
    }
}

/// Terminating twice releases the handle once: the second termination hands
/// out nothing, and leaves the registration as the first left it.
pub proof fn terminate_releases_once<T>(reg: Registration<T>)
    ensures
        terminated(terminated(reg).0).1 is None,
        terminated(terminated(reg).0).0 == terminated(reg).0,
{
}

} // verus!
