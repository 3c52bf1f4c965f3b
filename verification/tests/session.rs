use relay::codec::RelayError;
use relay::pipe::{run_pipe, Direction};
use relay::session::{session_step, SessionAction, SessionEvent, SessionState};

#[test]
fn successful_dial_starts_both_pipes() {
    let step = session_step(SessionState::Connecting, SessionEvent::UpstreamConnected);
    assert_eq!(step.next, SessionState::Relaying);
    assert_eq!(step.action, SessionAction::StartPipes);
    assert_eq!(step.report, None);
}

#[test]
fn dial_failure_closes_client_and_never_starts_a_pipe() {
    let step = session_step(SessionState::Connecting, SessionEvent::UpstreamDialFailed);
    assert_eq!(step.next, SessionState::Closed);
    assert_eq!(step.action, SessionAction::CloseClient);
    assert_eq!(step.report, Some(RelayError::UpstreamUnreachable));
    assert_ne!(step.action, SessionAction::StartPipes);
}

#[test]
fn upstream_close_mid_session_closes_both_then_releases() {
    // The upstream connection closes while relaying: its pipe sees an empty
    // remainder and terminates with ConnectionClosed.
    let upstream_leftover: Vec<u8> = vec![];
    let run = run_pipe(&upstream_leftover, Direction::UpstreamToClient);
    assert_eq!(run.stop, RelayError::ConnectionClosed);

    // The first termination closes both connections...
    let first = session_step(SessionState::Relaying, SessionEvent::PipeTerminated);
    assert_eq!(first.next, SessionState::Closed);
    assert_eq!(first.action, SessionAction::CloseBoth);

    // ...and the other pipe, its write target now closed, terminates too,
    // which releases the session.
    let second = session_step(SessionState::Closed, SessionEvent::PipeTerminated);
    assert_eq!(second.next, SessionState::Closed);
    assert_eq!(second.action, SessionAction::Release);
}

#[test]
fn closed_is_terminal() {
    let a = session_step(SessionState::Closed, SessionEvent::UpstreamConnected);
    assert_eq!(a.next, SessionState::Closed);
    assert_eq!(a.action, SessionAction::NoAction);
    let b = session_step(SessionState::Closed, SessionEvent::UpstreamDialFailed);
    assert_eq!(b.next, SessionState::Closed);
    assert_eq!(b.action, SessionAction::NoAction);
}

#[test]
fn relaying_ignores_dial_events() {
    let a = session_step(SessionState::Relaying, SessionEvent::UpstreamConnected);
    assert_eq!(a.next, SessionState::Relaying);
    assert_eq!(a.action, SessionAction::NoAction);
    let b = session_step(SessionState::Relaying, SessionEvent::UpstreamDialFailed);
    assert_eq!(b.next, SessionState::Relaying);
    assert_eq!(b.action, SessionAction::NoAction);
}
