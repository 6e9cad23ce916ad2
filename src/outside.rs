//! Declarations of the types and functions of other crates that the library
//! calls, with what it relies on of each.

use futures::task::AtomicWaker;
use lock_api::{Mutex, RawMutex};
use std::task::Waker;
use vstd::prelude::*;

verus! {

/// `std::task::Waker`, carried through as an opaque handle.
#[verifier::external_type_specification]
#[verifier::external_body]
pub struct ExWaker(Waker);

/// `futures::task::AtomicWaker`: the single slot that holds the outer waker.
#[verifier::external_type_specification]
#[verifier::external_body]
pub struct ExAtomicWaker(AtomicWaker);

/// `lock_api::Mutex`: the lock around the shared state.
#[verifier::external_type_specification]
#[verifier::external_body]
#[verifier::reject_recursive_types(R)]
#[verifier::reject_recursive_types(T)]
pub struct ExMutex<R, T: ?Sized>(Mutex<R, T>);

/// Whether the slot holds a waker.
pub uninterp spec fn slot_armed(a: AtomicWaker) -> bool;

/// Relies on `AtomicWaker::new`: the slot starts empty.
pub assume_specification[ AtomicWaker::new ]() -> (r: AtomicWaker)
    ensures
        !slot_armed(r),
;

/// Relies on `AtomicWaker::register`: with no other thread at the slot,
/// `waker` takes the place of the waker stored before (the old one is kept
/// where it wakes the same task), so the slot holds a waker afterwards.
#[verifier::external_body]
pub(crate) fn register_slot(slot: &mut AtomicWaker, waker: &Waker)
    ensures
        slot_armed(*final(slot)),
{
    slot.register(waker)
}

/// Relies on `AtomicWaker::wake`: with no other thread at the slot, the stored
/// waker, if any, is taken out and woken, so the slot is empty afterwards.
#[verifier::external_body]
pub(crate) fn wake_slot(slot: &mut AtomicWaker)
    ensures
        !slot_armed(*final(slot)),
{
    slot.wake()
}

/// Relies on `lock_api::Mutex::new`: a lock around `val`.
pub assume_specification<R: RawMutex, T>[ Mutex::<R, T>::new ](val: T) -> Mutex<R, T>;

/// Relies on `lock_api::Mutex::lock`: blocks until the lock is held, then runs
/// `f` on the guarded value and releases the lock when `f` returns. Other
/// threads may change the value between two calls, so nothing is stated of the
/// value that `f` sees.
#[verifier::external_body]
pub(crate) fn with_lock<R: RawMutex, T, Out, F: FnOnce(&mut T) -> Out>(
    m: &Mutex<R, T>,
    f: F,
) -> Out {
    f(&mut *m.lock())
}

} // verus!
