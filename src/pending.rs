//! The shared state: the set of keys that fired since the last drain, and the
//! slot of the outer waker.

use crate::outside::{register_slot, slot_armed, wake_slot};
use futures::task::AtomicWaker;
use std::collections::HashSet;
use std::hash::Hash;
use std::task::Waker;
use vstd::prelude::*;
use vstd::std_specs::hash::obeys_key_model;

verus! {

broadcast use vstd::std_specs::hash::group_hash_axioms;

/// A key type whose `==` and `Hash` agree with equality of values, and whose
/// `clone` hands back an equal value.
pub open spec fn valid_key_type<K: Clone>() -> bool {
    &&& obeys_key_model::<K>()
    &&& forall|a: K, b: K| #[trigger] call_ensures(K::clone, (&a,), b) ==> a == b
}

/// Waking with `key` takes the pending set `pre` to `post`.
pub open spec fn wake_step<K>(pre: Set<K>, key: K, post: Set<K>) -> bool {
    post == pre.insert(key)
}

/// Draining the pending set `pre` hands out `out` and leaves `post`.
pub open spec fn drain_step<K>(pre: Set<K>, post: Set<K>, out: Set<K>) -> bool {
    &&& out == pre
    &&& post == Set::<K>::empty()
}

/// The state that the lock guards: the keys that fired since the last drain,
/// and the slot of the outer waker.
#[verifier::reject_recursive_types(K)]
pub struct SetWakerInner<K> {
    wakeups: HashSet<K>,
    waker: AtomicWaker,
}

impl<K> View for SetWakerInner<K> {
    type V = Set<K>;

    closed spec fn view(&self) -> Set<K> {
        self.wakeups@
    }
}

impl<K> SetWakerInner<K> {
    /// Whether an outer waker is stored, to be woken by the next wake.
    pub closed spec fn armed(&self) -> bool {
        slot_armed(self.waker)
    }
}

impl<K: Eq + Hash + Clone> SetWakerInner<K> {
    /// No key pending, no outer waker stored.
    pub fn new() -> (r: Self)
        ensures
            r@ == Set::<K>::empty(),
            !r.armed(),
    {
        SetWakerInner { wakeups: HashSet::new(), waker: AtomicWaker::new() }
    }

    /// Stores `waker` as the outer waker, in place of the one stored before.
    /// The pending set is left as it was.
    pub fn register(&mut self, waker: &Waker)
        ensures
            final(self)@ == old(self)@,
            final(self).armed(),
    {
        register_slot(&mut self.waker, waker);
    }

    /// Records `key` as fired, then takes the stored outer waker, if any, and
    /// wakes it, also where `key` was pending already. Until the next
    /// register, a further wake finds the slot empty and wakes nothing.
    pub fn wake(&mut self, key: &K)
        ensures
            valid_key_type::<K>() ==> wake_step(old(self)@, *key, final(self)@),
            !final(self).armed(),
    {
        if !self.wakeups.contains(key) {
            self.wakeups.insert(key.clone());
        } else {
            proof {
                if valid_key_type::<K>() {
                    assert(old(self)@.insert(*key) =~= old(self)@);
                }
            }
        }
        wake_slot(&mut self.waker);
    }

    /// Hands out the pending set and leaves it empty. The outer waker slot is
    /// left as it was, and nothing is woken.
    pub fn take_keys(&mut self) -> (r: HashSet<K>)
        ensures
            drain_step(old(self)@, final(self)@, r@),
            final(self).armed() == old(self).armed(),
    {
        let mut set = HashSet::new();
        core::mem::swap(&mut self.wakeups, &mut set);
        set
    }
}

} // verus!
