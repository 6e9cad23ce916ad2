//! The owner's handle, and the per-key wakers it hands out.

use crate::outside::with_lock;
use crate::pending::SetWakerInner;
use lock_api::{Mutex, RawMutex};
use std::collections::HashSet;
use std::hash::Hash;
use std::sync::Arc;
use std::task::{Wake, Waker};
use vstd::prelude::*;

verus! {

/// The owner's handle on one shared state. Clones share that state.
///
/// The state lives behind a lock that other threads take too, so no call here
/// can tell what it holds; each critical section runs one operation of
/// [`SetWakerInner`], whose contracts say what it does to the state.
#[verifier::reject_recursive_types(M)]
#[verifier::reject_recursive_types(K)]
pub struct SetWaker<M, K> {
    inner: Arc<Mutex<M, SetWakerInner<K>>>,
}

impl<M, K> Clone for SetWaker<M, K> {
    fn clone(&self) -> Self {
        SetWaker { inner: self.inner.clone() }
    }
}

/// The object behind each waker that [`SetWaker::with_key`] makes: the shared
/// state and the key that waking it records.
#[verifier::reject_recursive_types(M)]
#[verifier::reject_recursive_types(K)]
pub struct KeyWaker<M, K> {
    shared: Arc<Mutex<M, SetWakerInner<K>>>,
    key: K,
}

/// Relies on `Waker::from` for `Arc<W>` where `W: Wake`: a waker whose `wake`
/// and `wake_by_ref` call those of `handle`, and whose clones share it.
#[verifier::external_body]
fn into_waker<M, K>(handle: Arc<KeyWaker<M, K>>) -> Waker
    where
        M: RawMutex + Send + Sync + 'static,
        K: Eq + Hash + Clone + Send + Sync + 'static,
{
    Waker::from(handle)
}

impl<M, K> KeyWaker<M, K> where M: RawMutex, K: Eq + Hash + Clone {
    /// Runs [`SetWakerInner::wake`] with this key on the shared state.
    fn fire(&self) {
        with_lock(&self.shared, |s: &mut SetWakerInner<K>| s.wake(&self.key));
    }
}

impl<M, K> Wake for KeyWaker<M, K>
    where
        M: RawMutex + Send + Sync + 'static,
        K: Eq + Hash + Clone + Send + Sync + 'static,
{
    fn wake(self: Arc<Self>) {
        self.fire();
    }

    fn wake_by_ref(self: &Arc<Self>) {
        self.fire();
    }
}

impl<M, K> SetWaker<M, K>
    where
        M: RawMutex + Send + Sync + 'static,
        K: Eq + Hash + Clone + Send + Sync + 'static,
{
    /// A fresh shared state: no key pending, no outer waker.
    pub fn new() -> Self {
        SetWaker { inner: Arc::new(Mutex::new(SetWakerInner::new())) }
    }

    /// Stores `waker` as the outer waker, in place of any stored before.
    pub fn register(&self, waker: &Waker) {
        with_lock(&self.inner, |s: &mut SetWakerInner<K>| s.register(waker));
    }

    /// A waker bound to `key` and to this shared state. Waking it, by value or
    /// by reference, records `key` as pending and wakes the outer waker.
    pub fn with_key(&self, key: K) -> Waker {
        into_waker(Arc::new(KeyWaker { shared: self.inner.clone(), key }))
    }

    /// The keys that fired since the last drain; the pending set is left empty.
    pub fn keys(&self) -> HashSet<K> {
        with_lock(&self.inner, |s: &mut SetWakerInner<K>| s.take_keys())
    }
}

} // verus!
