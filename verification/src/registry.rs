//! The client registry: the server's map from a connection's identity to
//! its live transport handle, for addressed replies and broadcasts.

use vstd::prelude::*;
use std::collections::HashMap;

verus! {

broadcast use vstd::std_specs::hash::group_hash_axioms;

/// Connected clients, keyed by the small integer identity the transport
/// derives from each connection.  An id that reconnects overwrites its
/// old entry.
pub struct ClientConnections<T> {
    connections: HashMap<u32, T>,
}

impl<T> View for ClientConnections<T> {
    type V = Map<u32, T>;

    closed spec fn view(&self) -> Map<u32, T> {
        self.connections@
    }
}

impl<T> ClientConnections<T> {
    pub fn new() -> (r: Self)
        ensures
            r@ == Map::<u32, T>::empty(),
    {
        ClientConnections { connections: HashMap::new() }
    }

    /// Record the handle for a client identity, replacing any stale
    /// entry the identity left behind.
    pub fn add_client(&mut self, id: u32, stream: T)
        ensures
            final(self)@ == old(self)@.insert(id, stream),
    {
        self.connections.insert(id, stream);
    }

    /// The handle registered for an identity, if one is.
    pub fn get_client(&self, id: u32) -> (r: Option<&T>)
        ensures
            match r {
                Some(s) => self@.contains_key(id) && *s == self@[id],
                None => !self@.contains_key(id),
            },
    {
        self.connections.get(&id)
    }
}

} // verus!
