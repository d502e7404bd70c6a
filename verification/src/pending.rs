//! The pending-request table: tunnel identifier to the single-use
//! deliverer that will hand the response bytes to the waiting
//! dispatcher.  An entry is inserted before the request envelope is
//! sent and consumed exactly once, by the reader loop on a matching
//! response or by the dispatcher itself on timeout.
//!
//! The deliverer type is a parameter: the table never looks inside it.

use vstd::prelude::*;

use crate::codec::fresh_tunnel_id;
use crate::strmap::StrMap;

verus! {

/// One in-flight request as the frontend tracks it: a fresh tunnel
/// identifier and the deliverer for the response bytes.
pub struct WebsocketTunnelRequest<T> {
    pub id: String,
    pub on_response: T,
}

impl<T> WebsocketTunnelRequest<T> {
    /// A tracker with a freshly drawn tunnel identifier.
    pub fn new(on_response: T) -> (r: Self)
        ensures
            r.on_response == on_response,
            r.id@.len() == 36,
    {
        let id = fresh_tunnel_id();
        WebsocketTunnelRequest { id, on_response }
    }

    /// The tunnel identifier this tracker was given.
    pub fn request_id(&self) -> (r: &str)
        ensures
            r@ == self.id@,
    {
        self.id.as_str()
    }
}

/// A mapping from tunnel identifier to deliverer.
pub struct PendingTable<T> {
    table: StrMap<T>,
}

impl<T> View for PendingTable<T> {
    type V = Map<Seq<char>, T>;

    closed spec fn view(&self) -> Map<Seq<char>, T> {
        self.table@
    }
}

impl<T> PendingTable<T> {
    /// The tunnel identifiers with a waiter, in insertion order.
    pub closed spec fn tunnel_ids(&self) -> Seq<Seq<char>> {
        self.table.keys_seq()
    }

    /// Well-formed: one entry per tunnel identifier.
    pub closed spec fn wf(&self) -> bool {
        self.table.wf()
    }

    /// An empty table.
    pub fn new() -> (r: Self)
        ensures
            r.wf(),
            r@ == Map::<Seq<char>, T>::empty(),
            r.tunnel_ids() == Seq::<Seq<char>>::empty(),
    {
        PendingTable { table: StrMap::new() }
    }

    /// Adds a deliverer under `tunnel_id`.
    pub fn insert(&mut self, tunnel_id: String, deliverer: T) -> (displaced: Option<T>)
        requires
            old(self).wf(),
        ensures
            final(self).wf(),
            final(self)@ == old(self)@.insert(tunnel_id@, deliverer),
            match displaced {
                Some(d) => old(self)@.contains_key(tunnel_id@) && d == old(self)@[tunnel_id@],
                None => !old(self)@.contains_key(tunnel_id@),
            },
    {
        self.table.insert(tunnel_id, deliverer)
    }

    /// Atomic pop: removes the entry under `tunnel_id` and hands its
    /// deliverer out.
    pub fn remove(&mut self, tunnel_id: &str) -> (r: Option<T>)
        requires
            old(self).wf(),
        ensures
            final(self).wf(),
            final(self)@ == old(self)@.remove(tunnel_id@),
            !final(self)@.contains_key(tunnel_id@),
            match r {
                Some(d) => old(self)@.contains_key(tunnel_id@) && d == old(self)@[tunnel_id@],
                None => !old(self)@.contains_key(tunnel_id@) && *final(self) == *old(self),
            },
    {
        self.table.remove(tunnel_id)
    }

    /// Whether a waiter is pending under `tunnel_id`.
    pub fn contains(&self, tunnel_id: &str) -> (r: bool)
        ensures
            r == self@.contains_key(tunnel_id@),
    {
        self.table.contains_key(tunnel_id)
    }

    /// Whether no request is in flight.
    pub fn is_empty(&self) -> (r: bool)
        ensures
            r == (self.tunnel_ids().len() == 0),
            r ==> self@ == Map::<Seq<char>, T>::empty(),
    {
        self.table.is_empty()
    }

    /// Correlation uniqueness: no two in-flight entries share a tunnel
    /// identifier.  Every dispatched envelope is stamped with the key
    /// of its own entry, so no two concurrently dispatched envelopes
    /// share one either.
    pub proof fn lemma_tunnel_ids_unique(&self)
        requires
            self.wf(),
        ensures
            forall|i: int, j: int|
                0 <= i < j < self.tunnel_ids().len() ==> self.tunnel_ids()[i]
                    != self.tunnel_ids()[j],
    {
        self.table.lemma_keys_unique();
    }

    /// The tunnel identifiers are exactly the keys of the table.
    pub proof fn lemma_tunnel_ids_match_view(&self)
        ensures
            forall|k: Seq<char>| #[trigger] self@.contains_key(k) <==> self.tunnel_ids().contains(
                k,
            ),
    {
        self.table.lemma_keys_match_view();
    }
}

/// Exactly-once delivery: popping a tunnel identifier hands out the
/// deliverer stored under it and leaves no entry behind, so a second
/// pop of the same identifier finds nothing.
pub proof fn lemma_pop_exactly_once<T>(m: Map<Seq<char>, T>, tunnel_id: Seq<char>)
    ensures
        !m.remove(tunnel_id).contains_key(tunnel_id),
        forall|k: Seq<char>| k != tunnel_id && #[trigger] m.contains_key(k) ==> m.remove(
            tunnel_id,
        ).contains_key(k) && m.remove(tunnel_id)[k] == m[k],
{
}

} // verus!
