//! Request-multiplexing core of a reverse HTTP tunnel.
//!
//! A public frontend forwards HTTP requests to agents behind NAT over
//! long-lived WebSocket sessions.  This crate holds the verified core:
//! the envelope codec for requests and responses, the connection
//! registry keyed by agent identity, the pending-request table keyed by
//! tunnel identifier, and the decision logic of the dispatcher, the
//! reader loop, and the agent's reconnect supervisor.  Transport and
//! scheduling live outside the crate and hand plain values in and out.

use vstd::prelude::*;

pub mod agent;
pub mod codec;
pub mod dispatch;
pub mod headers;
pub mod pending;
pub mod registry;
pub mod request;
pub mod response;
pub mod stream;
pub mod strmap;

verus! {

/// Everything that can go wrong between accepting a public request and
/// handing back a response.  The dispatcher maps each kind to an HTTP
/// status with [`status_for_error`].
#[derive(Debug, Clone, Copy, PartialEq, Eq, Structural)]
pub enum TunnelError {
    /// No `X-CONNECT-ID` header on the public request.
    MissingRoutingHeader,
    /// No `X-CONNECT-HOST` header on the public request.
    MissingTargetHost,
    /// The routing identifier is not in the registry.
    NoSuchAgent,
    /// The request body exceeds the configured cap.
    BodyTooLarge,
    /// The transport failed while the body was being drained.
    BodyReadFailure,
    /// An envelope body failed to decode from base64.
    CorruptBody,
    /// Sending on the agent's WebSocket failed.
    AgentTransportFailed,
    /// The agent went away before delivering a response.
    AgentDisconnected,
    /// The per-request deadline passed without a response.
    AgentTimeout,
    /// The recombined target URI does not parse.
    MalformedTarget,
    /// The method token is not a valid HTTP method.
    UnknownMethod,
}

/// The HTTP status code surfaced to the public caller for each error kind.
pub open spec fn spec_status_for_error(e: TunnelError) -> u16 {
    match e {
        TunnelError::MissingRoutingHeader => 400,
        TunnelError::MissingTargetHost => 400,
        TunnelError::NoSuchAgent => 400,
        TunnelError::BodyTooLarge => 413,
        TunnelError::BodyReadFailure => 400,
        TunnelError::CorruptBody => 502,
        TunnelError::AgentTransportFailed => 502,
        TunnelError::AgentDisconnected => 502,
        TunnelError::AgentTimeout => 504,
        TunnelError::MalformedTarget => 400,
        TunnelError::UnknownMethod => 400,
    }
}

/// Maps an error kind to the HTTP status the public caller sees.
pub fn status_for_error(e: TunnelError) -> (status: u16)
    ensures
        status == spec_status_for_error(e),
{
    match e {
        TunnelError::MissingRoutingHeader => 400,
        TunnelError::MissingTargetHost => 400,
        TunnelError::NoSuchAgent => 400,
        TunnelError::BodyTooLarge => 413,
        TunnelError::BodyReadFailure => 400,
        TunnelError::CorruptBody => 502,
        TunnelError::AgentTransportFailed => 502,
        TunnelError::AgentDisconnected => 502,
        TunnelError::AgentTimeout => 504,
        TunnelError::MalformedTarget => 400,
        TunnelError::UnknownMethod => 400,
    }
}

} // verus!
