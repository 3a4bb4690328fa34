//! The connection registry: which user each open connection belongs to.

use vstd::prelude::*;
use std::collections::HashMap;

verus! {

broadcast use vstd::std_specs::hash::group_hash_axioms;

/// Maps each open connection's id to the id of the user it authenticated as.
/// Several connections may belong to one user. It is a lookup index, not an
/// owner: callers share it (behind a lock) between connection tasks.
pub struct ConnectionRegistry {
    entries: HashMap<u128, u128>,
}

impl View for ConnectionRegistry {
    type V = Map<u128, u128>;

    closed spec fn view(&self) -> Map<u128, u128> {
        self.entries@
    }
}

impl ConnectionRegistry {
    /// An empty registry.
    pub fn new() -> (r: Self)
        ensures
            r@ == Map::<u128, u128>::empty(),
    {
        ConnectionRegistry { entries: HashMap::new() }
    }

    /// Records that `connection_id` belongs to `user_id`, replacing any earlier entry.
    pub fn register(&mut self, connection_id: u128, user_id: u128)
        ensures
            final(self)@ == old(self)@.insert(connection_id, user_id),
    {
        self.entries.insert(connection_id, user_id);
    }

    /// The user that `connection_id` belongs to; `None` for a connection that
    /// is not (or no longer) registered.
    pub fn lookup(&self, connection_id: u128) -> (r: Option<u128>)
        ensures
            r == (if self@.contains_key(connection_id) {
                Some(self@[connection_id])
            } else {
                None::<u128>
            }),
    {
        match self.entries.get(&connection_id) {
            Some(user_id) => Some(*user_id),
            None => None,
        }
    }

    /// Forgets `connection_id`; doing so twice is harmless.
    pub fn unregister(&mut self, connection_id: u128)
        ensures
            final(self)@ == old(self)@.remove(connection_id),
    {
        self.entries.remove(&connection_id);
    }

    /// How many connections are registered.
    pub fn len(&self) -> (r: usize)
        ensures
            r == self@.len(),
    {
        self.entries.len()
    }
}

/// Once a connection is unregistered it is absent, whatever the registry held,
/// and every other connection keeps its entry.
pub proof fn lemma_unregister_absent(r: Map<u128, u128>, connection_id: u128, other: u128)
    ensures
        !r.remove(connection_id).contains_key(connection_id),
        other != connection_id ==> r.remove(connection_id).contains_key(other)
            == r.contains_key(other),
        other != connection_id && r.contains_key(other) ==> r.remove(connection_id)[other]
            == r[other],
{
}

} // verus!
