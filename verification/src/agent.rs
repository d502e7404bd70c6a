//! Agent-side decision logic: how a received request envelope is
//! answered, and the reconnect supervisor that keeps one session alive
//! against the frontend until shutdown.

use vstd::prelude::*;

use crate::codec::b64_decode_of;
use crate::request::RequestWarpper;
use crate::response::{DecodedResponse, ResponseWarpper};

verus! {

/// Seconds an agent waits after a failed or ended session before it
/// dials the frontend again.
pub const BACKOFF_SECS: u64 = 5;

/// A copy of an optional string.
fn clone_opt_string(s: &Option<String>) -> (r: Option<String>)
    ensures
        r == *s,
{
    match s {
        Some(t) => Some(t.clone()),
        None => None,
    }
}

/// The answer an agent sends for one received request envelope: the
/// executed response wrapped up if local execution succeeded, the
/// synthetic `400` envelope if it failed.  Either way the reply carries
/// the request's routing identifier and echoes its tunnel identifier,
/// so the frontend can correlate it.
pub fn agent_reply(req: &RequestWarpper, outcome: Option<DecodedResponse>) -> (r: ResponseWarpper)
    requires
        outcome matches Some(o) ==> o.body@.len() <= usize::MAX as int / 2,
    ensures
        r.request_id == req.request_id,
        r.tunnel_id == req.tunnel_id,
        match outcome {
            Some(o) => {
                &&& r.status == o.status
                &&& r.headers == o.headers
                &&& r.body matches Some(bs) && b64_decode_of(bs@) == Some(o.body@)
            },
            None => {
                &&& r.status == 400
                &&& r.headers@ == Seq::<(String, String)>::empty()
                &&& r.body is None
            },
        },
{
    let request_id = req.request_id.clone();
    let tunnel_id = clone_opt_string(&req.tunnel_id);
    match outcome {
        Some(o) => ResponseWarpper::from_response(
            request_id,
            tunnel_id,
            o.status,
            o.headers,
            o.body,
        ),
        None => ResponseWarpper::new_bad_response(request_id, tunnel_id),
    }
}

/// Where the agent's supervisor stands.
#[derive(Debug, Clone, Copy, PartialEq, Eq, Structural)]
pub enum AgentSessionState {
    /// Trying to open a WebSocket to the frontend.
    Dialing,
    /// A session is up; frames are being served.
    Connected,
    /// The session ended; its socket is going away.
    Draining,
    /// Waiting out the backoff before the next dial.
    Idle,
    /// Shut down; the supervisor never leaves this state.
    Stopped,
}

/// What the supervisor observes.
#[derive(Debug, Clone, Copy, PartialEq, Eq, Structural)]
pub enum SupervisorEvent {
    /// The dial succeeded and a session can start.
    ConnectSucceeded,
    /// The dial failed.
    ConnectFailed,
    /// The running session ended: the peer closed, the transport
    /// failed, a malformed frame forced a teardown, or a send failed.
    SessionEnded,
    /// The backoff pause has run out.
    BackoffElapsed,
    /// The process-wide shutdown signal fired.
    ShutdownRequested,
}

/// What the caller must do next.
#[derive(Debug, Clone, Copy, PartialEq, Eq, Structural)]
pub enum SupervisorAction {
    /// Serve frames on the freshly opened session.
    EnterSession,
    /// Sleep this many seconds, then report `BackoffElapsed`.
    Backoff(u64),
    /// Open a WebSocket to the frontend.
    Dial,
    /// Exit without retrying.
    Stop,
    /// Nothing; the event does not apply to this state.
    Hold,
}

/// The supervisor's transition table.  Shutdown wins from every state;
/// a failed dial or an ended session is followed by a fixed backoff and
/// a fresh dial.
pub open spec fn spec_supervisor_step(s: AgentSessionState, e: SupervisorEvent) -> (
    AgentSessionState,
    SupervisorAction,
) {
    match (s, e) {
        (_, SupervisorEvent::ShutdownRequested) => (
            AgentSessionState::Stopped,
            SupervisorAction::Stop,
        ),
        (AgentSessionState::Stopped, _) => (AgentSessionState::Stopped, SupervisorAction::Stop),
        (AgentSessionState::Dialing, SupervisorEvent::ConnectSucceeded) => (
            AgentSessionState::Connected,
            SupervisorAction::EnterSession,
        ),
        (AgentSessionState::Dialing, SupervisorEvent::ConnectFailed) => (
            AgentSessionState::Idle,
            SupervisorAction::Backoff(BACKOFF_SECS),
        ),
        (AgentSessionState::Connected, SupervisorEvent::SessionEnded) => (
            AgentSessionState::Draining,
            SupervisorAction::Backoff(BACKOFF_SECS),
        ),
        (AgentSessionState::Draining, SupervisorEvent::BackoffElapsed) => (
            AgentSessionState::Dialing,
            SupervisorAction::Dial,
        ),
        (AgentSessionState::Idle, SupervisorEvent::BackoffElapsed) => (
            AgentSessionState::Dialing,
            SupervisorAction::Dial,
        ),
        (_, _) => (s, SupervisorAction::Hold),
    }
}

/// One supervisor step.
pub fn supervisor_step(s: AgentSessionState, e: SupervisorEvent) -> (r: (
    AgentSessionState,
    SupervisorAction,
))
    ensures
        r == spec_supervisor_step(s, e),
{
    match (s, e) {
        (_, SupervisorEvent::ShutdownRequested) => (
            AgentSessionState::Stopped,
            SupervisorAction::Stop,
        ),
        (AgentSessionState::Stopped, _) => (AgentSessionState::Stopped, SupervisorAction::Stop),
        (AgentSessionState::Dialing, SupervisorEvent::ConnectSucceeded) => (
            AgentSessionState::Connected,
            SupervisorAction::EnterSession,
        ),
        (AgentSessionState::Dialing, SupervisorEvent::ConnectFailed) => (
            AgentSessionState::Idle,
            SupervisorAction::Backoff(BACKOFF_SECS),
        ),
        (AgentSessionState::Connected, SupervisorEvent::SessionEnded) => (
            AgentSessionState::Draining,
            SupervisorAction::Backoff(BACKOFF_SECS),
        ),
        (AgentSessionState::Draining, SupervisorEvent::BackoffElapsed) => (
            AgentSessionState::Dialing,
            SupervisorAction::Dial,
        ),
        (AgentSessionState::Idle, SupervisorEvent::BackoffElapsed) => (
            AgentSessionState::Dialing,
            SupervisorAction::Dial,
        ),
        (_, _) => (s, SupervisorAction::Hold),
    }
}

/// Shutdown is terminal: from every state the shutdown signal stops the
/// supervisor, and a stopped supervisor answers every further event by
/// staying stopped.
pub proof fn lemma_shutdown_terminal(s: AgentSessionState, e: SupervisorEvent)
    ensures
        spec_supervisor_step(s, SupervisorEvent::ShutdownRequested) == (
            AgentSessionState::Stopped,
            SupervisorAction::Stop,
        ),
        spec_supervisor_step(AgentSessionState::Stopped, e) == (
            AgentSessionState::Stopped,
            SupervisorAction::Stop,
        ),
{
}

} // verus!
