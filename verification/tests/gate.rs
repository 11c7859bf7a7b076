use zaptui::error::{ErrorKind, StopReason};
use zaptui::event::Source;
use zaptui::gate::RenderGate;
use zaptui::session::{SessionState, TerminalSession};

#[test]
fn many_marks_make_one_render() {
    let mut gate = RenderGate::clean();
    gate.mark();
    gate.mark();
    gate.mark();
    assert!(gate.pending());
    assert!(gate.take());
    assert!(!gate.take());
    assert!(!gate.pending());
}

#[test]
fn no_mark_makes_no_render() {
    let mut gate = RenderGate::clean();
    assert!(!gate.pending());
    assert!(!gate.take());
    assert!(!gate.take());
}

#[test]
fn first_frame_is_due() {
    let mut gate = RenderGate::new();
    assert!(gate.take());
    assert!(!gate.take());
}

#[test]
fn session_is_acquired_once_and_released_once() {
    let mut session = TerminalSession::new();
    assert!(!session.is_active());
    assert_eq!(session.acquire(true), Ok(()));
    assert!(session.is_active());
    assert_eq!(session.acquire(true), Err(ErrorKind::TerminalSetup));
    assert!(session.is_active());
    assert!(session.release());
    assert!(!session.is_active());
    assert_eq!(session.state, SessionState::Released);
    assert!(!session.release());
    assert!(!session.release());
    assert_eq!(session.state, SessionState::Released);
    assert_eq!(session.acquire(true), Err(ErrorKind::TerminalSetup));
    assert!(!session.is_active());
}

#[test]
fn failed_setup_leaves_the_session_idle_and_release_still_works() {
    let mut session = TerminalSession::new();
    assert_eq!(session.acquire(false), Err(ErrorKind::TerminalSetup));
    assert_eq!(session.state, SessionState::Idle);
    assert!(session.release());
    assert!(!session.release());
}

#[test]
fn only_a_periodic_refresh_failure_is_survived() {
    assert!(ErrorKind::TerminalSetup.fatal());
    assert!(ErrorKind::Connection.fatal());
    assert!(ErrorKind::Dispatch.fatal());
    assert!(!ErrorKind::PeriodicRefresh.fatal());
    assert_eq!(ErrorKind::classify(Source::Input), ErrorKind::Dispatch);
    assert_eq!(ErrorKind::classify(Source::Notification), ErrorKind::Dispatch);
    assert_eq!(ErrorKind::classify(Source::ForegroundTimer), ErrorKind::PeriodicRefresh);
    assert_eq!(ErrorKind::classify(Source::BackgroundTimer), ErrorKind::PeriodicRefresh);
}

#[test]
fn only_a_failure_is_reported_at_the_end() {
    assert_eq!(StopReason::Quit.report(), None);
    assert_eq!(StopReason::Interrupt.report(), None);
    assert_eq!(StopReason::Failed(ErrorKind::Connection).report(), Some(ErrorKind::Connection));
    assert_eq!(StopReason::Failed(ErrorKind::Dispatch).report(), Some(ErrorKind::Dispatch));
}
