//! The reader-writer lock of `parking_lot`, as far as the logger uses it.
//!
//! What a lock holds is whatever the thread that held it last has left, so
//! nothing is known of the value at the moment the guard is handed out.
//! Everything that is proved about a locked value is proved by the functions
//! that work on it while the guard is held.

use vstd::prelude::*;
use std::sync::Arc;
use parking_lot::RwLock;

verus! {

#[verifier::external_type_specification]
#[verifier::external_body]
#[verifier::reject_recursive_types(R)]
#[verifier::reject_recursive_types(T)]
pub struct ExRwLock<R, T: ?Sized>(parking_lot::lock_api::RwLock<R, T>);

#[verifier::external_type_specification]
#[verifier::external_body]
pub struct ExRawRwLock(parking_lot::RawRwLock);

/// Exclusive access to the value in a lock, given back when the guard goes out
/// of scope. It holds a `parking_lot::RwLockWriteGuard`.
#[verifier::external_body]
#[verifier::reject_recursive_types(T)]
pub struct WriteGuard<'a, T> {
    guard: parking_lot::RwLockWriteGuard<'a, T>,
}

/// `RwLock::new`: a lock around `value`.
#[verifier::external_body]
pub(crate) fn new_lock<T>(value: T) -> RwLock<T> {
    RwLock::new(value)
}

/// `RwLock::write`: waits until no other thread holds the lock, then takes it
/// for writing. The thread must not hold the lock already.
#[verifier::external_body]
pub(crate) fn lock_write<'a, T>(lock: &'a RwLock<T>) -> WriteGuard<'a, T> {
    WriteGuard { guard: lock.write() }
}

/// `RwLock::try_write`: takes the lock for writing if no thread holds it, and
/// returns `None` at once if one does.
#[verifier::external_body]
pub(crate) fn try_lock_write<'a, T>(lock: &'a RwLock<T>) -> Option<WriteGuard<'a, T>> {
    match lock.try_write() {
        Some(guard) => Some(WriteGuard { guard }),
        None => None,
    }
}

/// The guard's `DerefMut`: the value that the guard gives access to.
#[verifier::external_body]
pub(crate) fn locked<'a, 'b, T>(guard: &'b mut WriteGuard<'a, T>) -> &'b mut T {
    &mut *guard.guard
}

/// `Arc::clone`: one more pointer to the same value.
#[verifier::external_body]
pub(crate) fn share<T>(pointer: &Arc<T>) -> (r: Arc<T>)
    ensures
        r == *pointer,
{
    Arc::clone(pointer)
}

} // verus!
