//! What the crate takes from the standard library's shared pointers and locks.
//!
//! Verus has no specification for these items. Each contract here states what
//! the standard library documents and is taken on trust; none of them says
//! what a lock holds, since any thread with a handle may have changed it.
use std::sync::Arc;
use std::sync::Mutex;
use std::sync::MutexGuard;
use std::sync::PoisonError;
use vstd::prelude::*;

verus! {

/// `std::sync::Mutex`, carried as an opaque value.
#[verifier::external_type_specification]
#[verifier::external_body]
#[verifier::reject_recursive_types(T)]
pub struct ExMutex<T: ?Sized>(Mutex<T>);

/// `std::sync::MutexGuard`, carried as an opaque value.
#[verifier::external_type_specification]
#[verifier::external_body]
#[verifier::reject_recursive_types(T)]
pub struct ExMutexGuard<'a, T: ?Sized + 'a>(MutexGuard<'a, T>);

/// `Mutex::new`: a lock around `value`. Nothing is claimed of the lock.
pub assume_specification<T>[ Mutex::<T>::new ](value: T) -> (mutex: Mutex<T>)
;

/// `Arc::clone`: one more pointer to the same allocation, so to the same value.
#[verifier::external_body]
pub(crate) fn share<T>(shared: &Arc<T>) -> (again: Arc<T>)
    ensures
        again == *shared,
{
    Arc::clone(shared)
}

/// `Arc::ptr_eq`: whether the two pointers lead to one allocation. The answer
/// is a matter of addresses, so nothing is claimed of it.
#[verifier::external_body]
pub(crate) fn same_allocation<T>(left: &Arc<T>, right: &Arc<T>) -> (same: bool)
{
    Arc::ptr_eq(left, right)
}

/// `Mutex::lock`: waits for the lock and takes it. A poisoned lock is taken
/// all the same, so the call returns whatever another holder did. It must not
/// be called by a thread that holds the lock already; no function of this
/// crate takes a second guard while it has one.
#[verifier::external_body]
pub(crate) fn lock<'a, T>(mutex: &'a Mutex<T>) -> (guard: MutexGuard<'a, T>)
    opens_invariants none
    no_unwind
{
    mutex.lock().unwrap_or_else(PoisonError::into_inner)
}

/// `DerefMut` of a guard: the value behind the lock, for as long as the guard
/// is borrowed. Nothing is claimed of the value found there.
#[verifier::external_body]
pub(crate) fn locked<'a, 'b, T>(guard: &'a mut MutexGuard<'b, T>) -> (value: &'a mut T)
    opens_invariants none
    no_unwind
{
    &mut **guard
}

} // verus!
