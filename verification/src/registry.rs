//! The connection registry: connect identifier to the sending half of
//! the agent's WebSocket.  At most one entry per identifier; a second
//! registration under the same identifier displaces the first, and the
//! displaced sink is handed back so the caller can close it.
//!
//! The sink type is a parameter: the registry never looks inside it.

use vstd::prelude::*;

use crate::strmap::StrMap;

verus! {

/// An agent connection as the frontend holds it: the identifier the
/// agent announced and the sending half of its WebSocket.
pub struct WebsocketConnect<T> {
    pub id: String,
    pub socket: T,
}

/// A mapping from connect identifier to agent sink.
pub struct ConnectionRegistry<T> {
    table: StrMap<T>,
}

impl<T> View for ConnectionRegistry<T> {
    type V = Map<Seq<char>, T>;

    closed spec fn view(&self) -> Map<Seq<char>, T> {
        self.table@
    }
}

impl<T> ConnectionRegistry<T> {
    /// Well-formed: one entry per identifier.
    pub closed spec fn wf(&self) -> bool {
        self.table.wf()
    }

    /// An empty registry.
    pub fn new() -> (r: Self)
        ensures
            r.wf(),
            r@ == Map::<Seq<char>, T>::empty(),
    {
        ConnectionRegistry { table: StrMap::new() }
    }

    /// Inserts or replaces the sink registered under `id`.  The
    /// displaced sink, if any, is handed back to be closed.
    pub fn register(&mut self, id: String, sink: T) -> (displaced: Option<T>)
        requires
            old(self).wf(),
        ensures
            final(self).wf(),
            final(self)@ == old(self)@.insert(id@, sink),
            match displaced {
                Some(s) => old(self)@.contains_key(id@) && s == old(self)@[id@],
                None => !old(self)@.contains_key(id@),
            },
    {
        self.table.insert(id, sink)
    }

    /// A handle on the sink registered under `id`, left in place.
    pub fn take_sender(&self, id: &str) -> (r: Option<&T>)
        requires
            self.wf(),
        ensures
            match r {
                Some(s) => self@.contains_key(id@) && *s == self@[id@],
                None => !self@.contains_key(id@),
            },
    {
        self.table.get(id)
    }

    /// Removes the entry under `id`, if any.  Closing the returned sink
    /// is the caller's business.
    pub fn unregister(&mut self, id: &str) -> (r: Option<T>)
        requires
            old(self).wf(),
        ensures
            final(self).wf(),
            final(self)@ == old(self)@.remove(id@),
            !final(self)@.contains_key(id@),
            match r {
                Some(s) => old(self)@.contains_key(id@) && s == old(self)@[id@],
                None => !old(self)@.contains_key(id@),
            },
    {
        self.table.remove(id)
    }

    /// Whether an agent is registered under `id`.
    pub fn contains(&self, id: &str) -> (r: bool)
        ensures
            r == self@.contains_key(id@),
    {
        self.table.contains_key(id)
    }
}

/// Last write wins.  Registering `a` and then `b` under one identifier
/// leaves exactly `b` registered: the map after the two registrations
/// holds `b` under `id`, and the state the second registration acted on
/// held `a`, so by [`ConnectionRegistry::register`]'s contract the
/// second registration hands `a` back to be closed.
pub proof fn lemma_register_last_write_wins<T>(m: Map<Seq<char>, T>, id: Seq<char>, a: T, b: T)
    ensures
        m.insert(id, a).insert(id, b).contains_key(id),
        m.insert(id, a).insert(id, b)[id] == b,
        m.insert(id, a).contains_key(id) && m.insert(id, a)[id] == a,
{
}

} // verus!
