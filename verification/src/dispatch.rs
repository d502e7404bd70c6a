//! Decision logic of the frontend dispatcher and of the per-connection
//! reader loop, over the registry and the pending-request table.  The
//! surrounding transport — serializing envelopes, sending frames,
//! awaiting the deliverer — happens outside the crate; these functions
//! say exactly what each step does to the shared state.

use vstd::prelude::*;

use crate::TunnelError;
use crate::pending::{PendingTable, WebsocketTunnelRequest};
use crate::registry::ConnectionRegistry;
use crate::request::RequestWarpper;
use crate::response::ResponseWarpper;

verus! {

/// Opens an in-flight request: stamps the tracker's tunnel identifier
/// into the envelope and parks the deliverer in the pending table, to
/// happen before the envelope is sent.  A displaced deliverer — only
/// possible if the fresh identifier collided with a live one — is
/// handed back; dropping it fails its waiter.
pub fn dispatch_open<T>(
    pending: &mut PendingTable<T>,
    envelope: &mut RequestWarpper,
    tunnel: WebsocketTunnelRequest<T>,
) -> (displaced: Option<T>)
    requires
        old(pending).wf(),
    ensures
        final(pending).wf(),
        final(pending)@ == old(pending)@.insert(tunnel.id@, tunnel.on_response),
        final(pending)@.contains_key(tunnel.id@),
        final(envelope).tunnel_id matches Some(t) && t@ == tunnel.id@,
        final(envelope).request_id == old(envelope).request_id,
        final(envelope).scheme == old(envelope).scheme,
        final(envelope).host == old(envelope).host,
        final(envelope).url == old(envelope).url,
        final(envelope).headers == old(envelope).headers,
        final(envelope).body == old(envelope).body,
        final(envelope).method == old(envelope).method,
        match displaced {
            Some(d) => old(pending)@.contains_key(tunnel.id@) && d == old(pending)@[tunnel.id@],
            None => !old(pending)@.contains_key(tunnel.id@),
        },
{
    let WebsocketTunnelRequest { id, on_response } = tunnel;
    envelope.set_tunnel_id(id.as_str());
    pending.insert(id, on_response)
}

/// The dispatcher's timeout path: the per-request deadline passed, so
/// the pending entry is withdrawn — a late response will find nothing —
/// and the caller surfaces the timeout error.
pub fn dispatch_timeout<T>(pending: &mut PendingTable<T>, tunnel_id: &str) -> (e: TunnelError)
    requires
        old(pending).wf(),
    ensures
        final(pending).wf(),
        e == TunnelError::AgentTimeout,
        final(pending)@ == old(pending)@.remove(tunnel_id@),
        !final(pending)@.contains_key(tunnel_id@),
{
    let _ = pending.remove(tunnel_id);
    TunnelError::AgentTimeout
}

/// The dispatcher's send-failure path: the pending entry is withdrawn
/// and the agent is unregistered.  The agent's sink, if it was still
/// registered, is handed back to be closed.
pub fn dispatch_send_failed<T, S>(
    pending: &mut PendingTable<T>,
    registry: &mut ConnectionRegistry<S>,
    tunnel_id: &str,
    connect_id: &str,
) -> (r: (TunnelError, Option<S>))
    requires
        old(pending).wf(),
        old(registry).wf(),
    ensures
        final(pending).wf(),
        final(registry).wf(),
        r.0 == TunnelError::AgentTransportFailed,
        final(pending)@ == old(pending)@.remove(tunnel_id@),
        !final(pending)@.contains_key(tunnel_id@),
        final(registry)@ == old(registry)@.remove(connect_id@),
        !final(registry)@.contains_key(connect_id@),
        match r.1 {
            Some(s) => old(registry)@.contains_key(connect_id@) && s == old(
                registry,
            )@[connect_id@],
            None => !old(registry)@.contains_key(connect_id@),
        },
{
    let _ = pending.remove(tunnel_id);
    let sink = registry.unregister(connect_id);
    (TunnelError::AgentTransportFailed, sink)
}

/// Exactly-once delivery, end to end: once a dispatcher has parked its
/// deliverer under its tunnel identifier, the pop for that identifier
/// hands back exactly that deliverer and leaves no entry behind, so a
/// duplicate response finds nothing and delivers to nobody.
pub proof fn lemma_dispatch_exactly_once<T>(m: Map<Seq<char>, T>, tunnel_id: Seq<char>, d: T)
    ensures
        m.insert(tunnel_id, d).contains_key(tunnel_id),
        m.insert(tunnel_id, d)[tunnel_id] == d,
        !m.insert(tunnel_id, d).remove(tunnel_id).contains_key(tunnel_id),
{
}

/// The reader loop's demultiplexing step for one decoded response
/// envelope: if it carries a tunnel identifier with a waiting entry,
/// that entry is popped and its deliverer handed out; an unknown or
/// missing identifier changes nothing and delivers to nobody — the
/// dispatcher may already have timed out.
pub fn demux_response<T>(pending: &mut PendingTable<T>, resp: &ResponseWarpper) -> (r: Option<T>)
    requires
        old(pending).wf(),
    ensures
        final(pending).wf(),
        match resp.tunnel_id {
            Some(t) => {
                &&& final(pending)@ == old(pending)@.remove(t@)
                &&& !final(pending)@.contains_key(t@)
                &&& match r {
                    Some(d) => old(pending)@.contains_key(t@) && d == old(pending)@[t@],
                    None => !old(pending)@.contains_key(t@),
                }
            },
            None => r is None && *final(pending) == *old(pending),
        },
{
    match &resp.tunnel_id {
        Some(t) => pending.remove(t.as_str()),
        None => None,
    }
}

} // verus!
