//! The correlation store: pending response slots keyed by correlation id.
use std::collections::HashMap;
use tokio::sync::oneshot::{Receiver, Sender};
use vstd::prelude::*;

use crate::slot::{deliver, open_slot};

verus! {

broadcast use vstd::std_specs::hash::group_hash_axioms;

/// Maps each in-flight correlation id to the write end of its response slot.
///
/// Keys are unique by construction of the map; an id is present exactly
/// while its request is registered and not yet resolved or expired.
#[verifier::reject_recursive_types(T)]
pub struct CorrelationStore<T> {
    pending: HashMap<u128, Sender<T>>,
}

impl<T> View for CorrelationStore<T> {
    type V = Map<u128, Sender<T>>;

    closed spec fn view(&self) -> Map<u128, Sender<T>> {
        self.pending@
    }
}

/// The store after `begin(id)` succeeded: `id` added, every other entry kept.
pub open spec fn registered<T>(before: Map<u128, Sender<T>>, after: Map<u128, Sender<T>>, id: u128) -> bool {
    &&& after.contains_key(id)
    &&& after.remove(id) == before
}

impl<T> CorrelationStore<T> {
    /// Whether a request with this id is registered.
    pub open spec fn is_pending(&self, id: u128) -> bool {
        self@.contains_key(id)
    }

    /// An empty store.
    pub fn new() -> (r: Self)
        ensures
            r@ == Map::<u128, Sender<T>>::empty(),
    {
        CorrelationStore { pending: HashMap::new() }
    }

    /// Number of registered requests.
    pub fn len(&self) -> (r: usize)
        ensures
            r == self@.len(),
    {
        self.pending.len()
    }

    /// Whether a request with this id is registered.
    pub fn contains(&self, id: u128) -> (r: bool)
        ensures
            r == self.is_pending(id),
    {
        self.pending.contains_key(&id)
    }

    /// Registers `id` with a fresh response slot and returns the slot's read
    /// end; `None`, with the store unchanged, if `id` is already registered.
    pub fn begin(&mut self, id: u128) -> (r: Option<Receiver<T>>)
        ensures
            r is None <==> old(self).is_pending(id),
            r is None ==> final(self)@ == old(self)@,
            r is Some ==> registered(old(self)@, final(self)@, id),
    {
        if self.pending.contains_key(&id) {
            return None;
        }
        let (tx, rx) = open_slot();
        self.pending.insert(id, tx);
        proof {
            assert(final(self)@.remove(id) =~= old(self)@);
        }
        Some(rx)
    }

    /// Removes the entry for `id` and hands `value` to its response slot.
    /// Returns whether an entry was there; an unknown, late or duplicate id
    /// leaves the store as it is.
    pub fn resolve(&mut self, id: u128, value: T) -> (r: bool)
        ensures
            r == old(self).is_pending(id),
            final(self)@ == old(self)@.remove(id),
    {
        match self.pending.remove(&id) {
            Some(tx) => {
                deliver(tx, value);
                true
            },
            None => {
                proof {
                    assert(old(self)@.remove(id) =~= old(self)@);
                }
                false
            },
        }
    }

    /// Removes the entry for `id`, abandoning its response slot. Returns
    /// whether an entry was still there.
    pub fn expire(&mut self, id: u128) -> (r: bool)
        ensures
            r == old(self).is_pending(id),
            final(self)@ == old(self)@.remove(id),
    {
        match self.pending.remove(&id) {
            Some(_) => true,
            None => {
                proof {
                    assert(old(self)@.remove(id) =~= old(self)@);
                }
                false
            },
        }
    }
}

} // verus!
