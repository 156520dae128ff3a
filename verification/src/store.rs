//! One connection, shared by every request, used by one at a time.
//!
//! The connection lives inside a `std::sync::Mutex`, and the only way to it is
//! [`SharedStore::with_connection`], which holds the lock from before the body
//! starts until after it has returned. That the lock keeps two holders apart is
//! the standard library's promise; it is taken on trust here, and so is
//! everything else about the lock.

use std::ops::Deref;
use std::sync::LockResult;
use std::sync::Mutex;
use std::sync::MutexGuard;
use std::sync::PoisonError;
use vstd::prelude::*;

verus! {

#[verifier::external_type_specification]
#[verifier::external_body]
#[verifier::reject_recursive_types(T)]
pub struct ExMutex<T: ?Sized>(Mutex<T>);

#[verifier::external_type_specification]
#[verifier::external_body]
#[verifier::reject_recursive_types(T)]
pub struct ExMutexGuard<'a, T: ?Sized + 'a>(MutexGuard<'a, T>);

#[verifier::external_type_specification]
#[verifier::external_body]
#[verifier::reject_recursive_types(T)]
pub struct ExPoisonError<T>(PoisonError<T>);

/// `Mutex::new`: a lock that owns `value`. Nothing is claimed of it but that
/// the call returns.
pub assume_specification<T>[ Mutex::<T>::new ](value: T) -> Mutex<T>;

/// `Mutex::lock`: waits until the lock is free and takes it. The guard comes
/// back in either case; the error case tells that an earlier holder panicked.
/// Nothing is claimed of the guard. A thread that asks for a lock it already
/// holds never gets it; no caller in this crate does.
pub assume_specification<'a, T: ?Sized>[ Mutex::<T>::lock ](gate: &'a Mutex<T>) -> LockResult<
    MutexGuard<'a, T>,
>;

/// `PoisonError::into_inner`: the guard that a poisoned lock still hands
/// over. Nothing is claimed of it.
pub assume_specification<T>[ PoisonError::<T>::into_inner ](error: PoisonError<T>) -> T;

/// `Deref::deref` of a guard: the value behind a lock that is held. Nothing
/// is claimed of it.
pub assume_specification<'a, 'b, T: ?Sized>[ <MutexGuard<'a, T> as Deref>::deref ](
    guard: &'b MutexGuard<'a, T>,
) -> &'b T;

/// The sole gate to one store connection.
///
/// The store owns the connection; callers only ever borrow it, one at a time,
/// for the length of one body.
#[verifier::reject_recursive_types(C)]
pub struct SharedStore<C> {
    gate: Mutex<C>,
}

impl<C> SharedStore<C> {
    /// Takes ownership of the connection.
    pub fn new(connection: C) -> Self {
        SharedStore { gate: Mutex::new(connection) }
    }

    /// Runs `body` on the connection while no other caller does.
    ///
    /// The call waits for the lock, however long that takes, runs `body` with
    /// the lock held, and gives the lock back before it returns, whatever
    /// `body` returned: a failure is the caller's to deal with, and the next
    /// caller finds the lock free. A lock left behind by a body that panicked
    /// is taken all the same.
    ///
    /// What comes back is what `body` returned for the connection it was
    /// shown. `body` must not ask the same store for the connection again: the
    /// lock it would wait for is its own.
    pub fn with_connection<R, F: FnOnce(&C) -> R>(&self, body: F) -> (out: R)
        requires
            forall|connection: &C| call_requires(body, (connection,)),
        ensures
            exists|connection: &C| call_ensures(body, (connection,), out),
    {
        let guard = match self.gate.lock() {
            Ok(guard) => guard,
            Err(poisoned) => poisoned.into_inner(),
        };
        let out = body(guard.deref());
        out
    }
}

} // verus!
