//! Connection session: the state machine that governs one client/upstream
//! connection pair, from accepting the client to the full release of both
//! connections.
//!
//! The lifecycle is `Connecting -> Relaying -> Closed`, with `Closed`
//! terminal: a session is single-shot and never re-dials or restarts a
//! pipe. Pipes are started exactly once, on a successful upstream dial; the
//! first pipe to terminate closes both connections, and the second
//! termination releases the session.

use vstd::prelude::*;
use crate::codec::RelayError;

verus! {

/// Lifecycle stage of one session.
#[derive(Clone, Copy, Debug, PartialEq, Eq, Structural)]
pub enum SessionState {
    /// A client connection was accepted; the upstream dial is in flight.
    Connecting,
    /// Both connections are open and the two directional pipes run.
    Relaying,
    /// Either the dial failed or a pipe terminated; terminal.
    Closed,
}

/// What the environment reports to the session.
#[derive(Clone, Copy, Debug, PartialEq, Eq, Structural)]
pub enum SessionEvent {
    /// The dial to the fixed upstream target succeeded.
    UpstreamConnected,
    /// The dial to the fixed upstream target failed.
    UpstreamDialFailed,
    /// One directional pipe finished, cleanly or with an error.
    PipeTerminated,
}

/// What the session asks the environment to do next.
#[derive(Clone, Copy, Debug, PartialEq, Eq, Structural)]
pub enum SessionAction {
    /// Start the two directional pipes, one per direction.
    StartPipes,
    /// Close the client connection; no pipe was ever started.
    CloseClient,
    /// Close both connections so the surviving pipe cannot hang.
    CloseBoth,
    /// Both pipes are done: release the session's resources.
    Release,
    /// Nothing to do.
    NoAction,
}

/// One transition of the session state machine.
#[derive(Clone, Copy, Debug, PartialEq, Eq, Structural)]
pub struct SessionStep {
    pub next: SessionState,
    pub action: SessionAction,
    pub report: Option<RelayError>,
}

/// How far along its lifecycle a state is; transitions never go backwards.
pub open spec fn state_rank(state: SessionState) -> int {
    match state {
        SessionState::Connecting => 0,
        SessionState::Relaying => 1,
        SessionState::Closed => 2,
    }
}

/// Advances the session by one event. A successful dial, and nothing else,
/// starts the pipes; a failed dial closes the client at once and reports
/// `UpstreamUnreachable`; the first pipe termination closes both
/// connections; the second releases the session. `Closed` is terminal and
/// the lifecycle never moves backwards.
pub fn session_step(state: SessionState, event: SessionEvent) -> (r: SessionStep)
    ensures
        state == SessionState::Connecting && event == SessionEvent::UpstreamConnected
            ==> r == (SessionStep {
            next: SessionState::Relaying,
            action: SessionAction::StartPipes,
            report: None,
        }),
        state == SessionState::Connecting && event == SessionEvent::UpstreamDialFailed
            ==> r == (SessionStep {
            next: SessionState::Closed,
            action: SessionAction::CloseClient,
            report: Some(RelayError::UpstreamUnreachable),
        }),
        state == SessionState::Connecting && event == SessionEvent::PipeTerminated
            ==> r == (SessionStep {
            next: SessionState::Connecting,
            action: SessionAction::NoAction,
            report: None,
        }),
        state == SessionState::Relaying && event == SessionEvent::PipeTerminated
            ==> r == (SessionStep {
            next: SessionState::Closed,
            action: SessionAction::CloseBoth,
            report: None,
        }),
        state == SessionState::Relaying && event != SessionEvent::PipeTerminated
            ==> r == (SessionStep {
            next: SessionState::Relaying,
            action: SessionAction::NoAction,
            report: None,
        }),
        state == SessionState::Closed && event == SessionEvent::PipeTerminated
            ==> r == (SessionStep {
            next: SessionState::Closed,
            action: SessionAction::Release,
            report: None,
        }),
        state == SessionState::Closed && event != SessionEvent::PipeTerminated
            ==> r == (SessionStep {
            next: SessionState::Closed,
            action: SessionAction::NoAction,
            report: None,
        }),
        r.action == SessionAction::StartPipes <==> (state == SessionState::Connecting
            && event == SessionEvent::UpstreamConnected),
        state_rank(r.next) >= state_rank(state),
        state == SessionState::Closed ==> r.next == SessionState::Closed,
        r.report.is_some() <==> (state == SessionState::Connecting && event
            == SessionEvent::UpstreamDialFailed),
{
    match (state, event) {
        (SessionState::Connecting, SessionEvent::UpstreamConnected) => SessionStep {
            next: SessionState::Relaying,
            action: SessionAction::StartPipes,
            report: None,
        },
        (SessionState::Connecting, SessionEvent::UpstreamDialFailed) => SessionStep {
            next: SessionState::Closed,
            action: SessionAction::CloseClient,
            report: Some(RelayError::UpstreamUnreachable),
        },
        (SessionState::Connecting, SessionEvent::PipeTerminated) => SessionStep {
            next: SessionState::Connecting,
            action: SessionAction::NoAction,
            report: None,
        },
        (SessionState::Relaying, SessionEvent::PipeTerminated) => SessionStep {
            next: SessionState::Closed,
            action: SessionAction::CloseBoth,
            report: None,
        },
        (SessionState::Relaying, _) => SessionStep {
            next: SessionState::Relaying,
            action: SessionAction::NoAction,
            report: None,
        },
        (SessionState::Closed, SessionEvent::PipeTerminated) => SessionStep {
            next: SessionState::Closed,
            action: SessionAction::Release,
            report: None,
        },
        (SessionState::Closed, _) => SessionStep {
            next: SessionState::Closed,
            action: SessionAction::NoAction,
            report: None,
        },
    }
}

} // verus!
