use socket_tunnel::TunnelError;
use socket_tunnel::agent::{AgentSessionState, BACKOFF_SECS, SupervisorAction, SupervisorEvent,
    supervisor_step};
use socket_tunnel::status_for_error;
use socket_tunnel::stream::fold_chunk;

#[test]
fn reconnect_backoff_until_frontend_up() {
    // Frontend unavailable: every dial fails, each followed by a ~5 s
    // backoff and a fresh dial.
    let mut state = AgentSessionState::Dialing;
    for _ in 0..3 {
        let (next, action) = supervisor_step(state, SupervisorEvent::ConnectFailed);
        assert_eq!(next, AgentSessionState::Idle);
        assert_eq!(action, SupervisorAction::Backoff(BACKOFF_SECS));
        assert_eq!(action, SupervisorAction::Backoff(5));
        let (next, action) = supervisor_step(next, SupervisorEvent::BackoffElapsed);
        assert_eq!(next, AgentSessionState::Dialing);
        assert_eq!(action, SupervisorAction::Dial);
        state = next;
    }
    // Frontend comes up: the next retry succeeds and the session starts.
    let (next, action) = supervisor_step(state, SupervisorEvent::ConnectSucceeded);
    assert_eq!(next, AgentSessionState::Connected);
    assert_eq!(action, SupervisorAction::EnterSession);
}

#[test]
fn session_end_backs_off_then_redials() {
    let (next, action) = supervisor_step(
        AgentSessionState::Connected,
        SupervisorEvent::SessionEnded,
    );
    assert_eq!(next, AgentSessionState::Draining);
    assert_eq!(action, SupervisorAction::Backoff(BACKOFF_SECS));
    let (next, action) = supervisor_step(next, SupervisorEvent::BackoffElapsed);
    assert_eq!(next, AgentSessionState::Dialing);
    assert_eq!(action, SupervisorAction::Dial);
}

#[test]
fn shutdown_is_terminal_from_every_state() {
    let states = [
        AgentSessionState::Dialing,
        AgentSessionState::Connected,
        AgentSessionState::Draining,
        AgentSessionState::Idle,
        AgentSessionState::Stopped,
    ];
    for s in states {
        let (next, action) = supervisor_step(s, SupervisorEvent::ShutdownRequested);
        assert_eq!(next, AgentSessionState::Stopped);
        assert_eq!(action, SupervisorAction::Stop);
    }
    // Once stopped, every further event keeps the supervisor stopped.
    let events = [
        SupervisorEvent::ConnectSucceeded,
        SupervisorEvent::ConnectFailed,
        SupervisorEvent::SessionEnded,
        SupervisorEvent::BackoffElapsed,
        SupervisorEvent::ShutdownRequested,
    ];
    for e in events {
        let (next, action) = supervisor_step(AgentSessionState::Stopped, e);
        assert_eq!(next, AgentSessionState::Stopped);
        assert_eq!(action, SupervisorAction::Stop);
    }
}

#[test]
fn error_status_mapping() {
    assert_eq!(status_for_error(TunnelError::MissingRoutingHeader), 400);
    assert_eq!(status_for_error(TunnelError::MissingTargetHost), 400);
    assert_eq!(status_for_error(TunnelError::NoSuchAgent), 400);
    assert_eq!(status_for_error(TunnelError::BodyTooLarge), 413);
    assert_eq!(status_for_error(TunnelError::BodyReadFailure), 400);
    assert_eq!(status_for_error(TunnelError::CorruptBody), 502);
    assert_eq!(status_for_error(TunnelError::AgentTransportFailed), 502);
    assert_eq!(status_for_error(TunnelError::AgentDisconnected), 502);
    assert_eq!(status_for_error(TunnelError::AgentTimeout), 504);
    assert_eq!(status_for_error(TunnelError::MalformedTarget), 400);
    assert_eq!(status_for_error(TunnelError::UnknownMethod), 400);
}

#[test]
fn fold_chunk_concatenates() {
    let mut acc: Vec<u8> = Vec::new();
    fold_chunk(&mut acc, &[1, 2, 3]);
    fold_chunk(&mut acc, &[]);
    fold_chunk(&mut acc, &[4, 5]);
    assert_eq!(acc, vec![1, 2, 3, 4, 5]);
}
