//! What this library takes from `std::sync` and `std::hint` on trust.
//!
//! Verus reads none of the bodies below. What a lock, a channel or a shared
//! pointer hands back depends on what other threads did, so most of these
//! functions promise nothing about their result.

use std::sync::mpsc::Receiver;
use std::sync::mpsc::Sender;
use std::sync::mpsc::SyncSender;
use std::sync::Arc;
use std::sync::Mutex;
use std::sync::MutexGuard;
use std::sync::RwLock;
use std::sync::RwLockReadGuard;
use std::sync::RwLockWriteGuard;
use vstd::prelude::*;

verus! {

/// `std::sync::Mutex`, carried through as an opaque value.
#[verifier::external_type_specification]
#[verifier::external_body]
#[verifier::reject_recursive_types(T)]
pub struct ExMutex<T: ?Sized>(Mutex<T>);

/// `std::sync::MutexGuard`, carried through as an opaque value.
#[verifier::external_type_specification]
#[verifier::external_body]
#[verifier::reject_recursive_types(T)]
pub struct ExMutexGuard<'a, T: ?Sized + 'a>(MutexGuard<'a, T>);

/// `std::sync::RwLock`, carried through as an opaque value.
#[verifier::external_type_specification]
#[verifier::external_body]
#[verifier::reject_recursive_types(T)]
pub struct ExRwLock<T: ?Sized>(RwLock<T>);

/// `std::sync::RwLockReadGuard`, carried through as an opaque value.
#[verifier::external_type_specification]
#[verifier::external_body]
#[verifier::reject_recursive_types(T)]
pub struct ExRwLockReadGuard<'a, T: ?Sized>(RwLockReadGuard<'a, T>);

/// `std::sync::RwLockWriteGuard`, carried through as an opaque value.
#[verifier::external_type_specification]
#[verifier::external_body]
#[verifier::reject_recursive_types(T)]
pub struct ExRwLockWriteGuard<'a, T: ?Sized + 'a>(RwLockWriteGuard<'a, T>);

/// `std::sync::mpsc::Sender`, carried through as an opaque value.
#[verifier::external_type_specification]
#[verifier::external_body]
#[verifier::reject_recursive_types(T)]
pub struct ExSender<T>(Sender<T>);

/// `std::sync::mpsc::SyncSender`, carried through as an opaque value.
#[verifier::external_type_specification]
#[verifier::external_body]
#[verifier::reject_recursive_types(T)]
pub struct ExSyncSender<T>(SyncSender<T>);

/// `std::sync::mpsc::Receiver`, carried through as an opaque value.
#[verifier::external_type_specification]
#[verifier::external_body]
#[verifier::reject_recursive_types(T)]
pub struct ExReceiver<T>(Receiver<T>);

/// `Arc::get_mut`: where it gives a reference, the reference leads to the
/// value behind `shared`, and what is written through it is what `shared`
/// leads to afterwards; where it gives none, `shared` is as before. Whether
/// it gives one depends on who else holds a pointer, so neither is promised.
#[verifier::external_body]
pub(crate) fn unique_mut<T>(shared: &mut Arc<T>) -> (inner: Option<&mut T>)
    ensures
        match inner {
            Some(value) => *value == **old(shared) && **final(shared) == *final(value),
            None => *final(shared) == *old(shared),
        },
{
    Arc::get_mut(shared)
}

/// `Mutex::new`. Nothing is stated of the lock.
pub assume_specification<T>[ Mutex::<T>::new ](value: T) -> (fresh: Mutex<T>);

/// `RwLock::new`. Nothing is stated of the lock.
pub assume_specification<T>[ RwLock::<T>::new ](value: T) -> (fresh: RwLock<T>);

/// `std::hint::spin_loop`. It returns nothing.
pub assume_specification[ std::hint::spin_loop ]();

/// `Mutex::lock`, with `None` for a poisoned lock. It waits until the lock
/// is free; a thread that holds the lock already must not ask for it again.
#[verifier::external_body]
pub(crate) fn lock<T>(mutex: &Mutex<T>) -> Option<MutexGuard<'_, T>> {
    match mutex.lock() {
        Ok(guard) => Some(guard),
        Err(_) => None,
    }
}

/// `DerefMut::deref_mut` of a `MutexGuard`. What the lock guards is whatever
/// its last holder left.
#[verifier::external_body]
pub(crate) fn locked<'a, 'b, T>(guard: &'a mut MutexGuard<'b, T>) -> &'a mut T {
    &mut **guard
}

/// `RwLock::read`. It waits while the lock is held for writing. A poisoned
/// lock is read all the same: this library holds its own locks only over
/// code that does not panic.
#[verifier::external_body]
pub(crate) fn read_lock<T>(lock: &RwLock<T>) -> RwLockReadGuard<'_, T> {
    match lock.read() {
        Ok(guard) => guard,
        Err(poisoned) => poisoned.into_inner(),
    }
}

/// `Deref::deref` of a `RwLockReadGuard`. What the lock guards is whatever
/// its last writer left.
#[verifier::external_body]
pub(crate) fn read_locked<'a, 'b, T>(guard: &'a RwLockReadGuard<'b, T>) -> &'a T {
    &**guard
}

/// `RwLock::write`. It waits while the lock is held. A poisoned lock is
/// written all the same.
#[verifier::external_body]
pub(crate) fn write_lock<T>(lock: &RwLock<T>) -> RwLockWriteGuard<'_, T> {
    match lock.write() {
        Ok(guard) => guard,
        Err(poisoned) => poisoned.into_inner(),
    }
}

/// `DerefMut::deref_mut` of a `RwLockWriteGuard`. What the lock guards is
/// whatever its last writer left.
#[verifier::external_body]
pub(crate) fn write_locked<'a, 'b, T>(guard: &'a mut RwLockWriteGuard<'b, T>) -> &'a mut T {
    &mut **guard
}

/// `std::sync::mpsc::channel`. Nothing is stated of the two ends.
pub assume_specification<T>[ std::sync::mpsc::channel::<T> ]() -> (ends: (Sender<T>, Receiver<T>));

/// `Sender::send`: whether the message was taken. It is not where the
/// receiving end is gone.
#[verifier::external_body]
pub(crate) fn send<T>(sender: &Sender<T>, message: T) -> bool {
    match sender.send(message) {
        Ok(()) => true,
        Err(_) => false,
    }
}

/// `SyncSender::send`: whether the message was taken. It is not where the
/// receiving end is gone. It waits while the channel is full.
#[verifier::external_body]
pub(crate) fn send_back<T>(sender: &SyncSender<T>, message: T) -> bool {
    match sender.send(message) {
        Ok(()) => true,
        Err(_) => false,
    }
}

/// `Receiver::recv`: the next message, once there is one, or `None` once
/// every sending end is gone and nothing is left to receive.
#[verifier::external_body]
pub(crate) fn receive<T>(receiver: &Receiver<T>) -> Option<T> {
    match receiver.recv() {
        Ok(message) => Some(message),
        Err(_) => None,
    }
}

} // verus!
