//! The channels and locks of `std::sync` that the library hands messages
//! through.
//!
//! Nothing is known of the far end of a channel: whether a send arrives or a
//! receive returns is for the other side to decide. The functions here say so
//! by promising nothing of their result.

use std::ops::Deref;
use std::sync::mpsc::Receiver;
use std::sync::mpsc::Sender;
use std::sync::Arc;
use std::sync::Mutex;
use std::sync::MutexGuard;
use vstd::prelude::*;

verus! {

/// The sending half of a channel, `std::sync::mpsc::Sender`.
#[verifier::external_type_specification]
#[verifier::external_body]
#[verifier::reject_recursive_types(T)]
pub struct ExSender<T>(Sender<T>);

/// The receiving half of a channel, `std::sync::mpsc::Receiver`.
#[verifier::external_type_specification]
#[verifier::external_body]
#[verifier::reject_recursive_types(T)]
pub struct ExReceiver<T>(Receiver<T>);

/// A mutual-exclusion lock, `std::sync::Mutex`.
#[verifier::external_type_specification]
#[verifier::external_body]
#[verifier::reject_recursive_types(T)]
pub struct ExMutex<T: ?Sized>(Mutex<T>);

/// A held lock, `std::sync::MutexGuard`.
#[verifier::external_type_specification]
#[verifier::external_body]
#[verifier::reject_recursive_types(T)]
pub struct ExMutexGuard<'a, T: ?Sized + 'a>(MutexGuard<'a, T>);

/// `std::sync::mpsc::channel` makes a new channel and returns its two halves.
pub assume_specification<T>[ std::sync::mpsc::channel::<T> ]() -> (halves: (Sender<T>, Receiver<T>));

/// Sends `value` down `chan` and tells whether the channel took it.
///
/// Trusted: calls `Sender::send`, which fails exactly when the receiving half
/// is gone. Whether it is gone is not for this side to know, so nothing is
/// promised of the answer.
#[verifier::external_body]
pub(crate) fn send_on<T>(chan: &Sender<T>, value: T) -> (sent: bool) {
    chan.send(value).is_ok()
}

/// Waits for the next value on `chan`; `None` once every sending half is gone.
///
/// Trusted: calls `Receiver::recv`, which blocks until a value or the hang-up
/// arrives. Nothing is promised of the answer.
#[verifier::external_body]
pub(crate) fn receive_from<T>(chan: &Receiver<T>) -> (value: Option<T>) {
    chan.recv().ok()
}

/// Takes the lock; `None` if a holder of the lock panicked.
///
/// Trusted: calls `Mutex::lock`, which blocks until the lock is free. Nothing
/// is promised of the answer. A thread that asks for a lock it already holds
/// waits for itself; the library takes no second lock while it holds one.
#[verifier::external_body]
pub(crate) fn acquire<'a, T>(lock: &'a Mutex<T>) -> (guard: Option<MutexGuard<'a, T>>) {
    lock.lock().ok()
}

/// What a held lock guards.
///
/// Trusted: calls `MutexGuard::deref`. Nothing is promised of the answer.
#[verifier::external_body]
pub(crate) fn guarded<'a, 'b, T>(guard: &'b MutexGuard<'a, T>) -> (value: &'b T) {
    guard.deref()
}

/// Another handle on what `shared` points to.
///
/// Trusted: calls `Arc::clone`, which makes a new pointer to the same value.
#[verifier::external_body]
pub(crate) fn share<T>(shared: &Arc<T>) -> (again: Arc<T>)
    ensures
        again == *shared,
{
    Arc::clone(shared)
}

} // verus!
