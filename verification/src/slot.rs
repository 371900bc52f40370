//! The slot that holds the value a `Mutex` or an `RwLock` protects.
//!
//! The value sits in a `std::sync` lock of its own, because handing out
//! references to it from a shared lock takes interior mutability. The spin
//! locks of this crate take the slot only while their own state word grants
//! the matching access, and give it back before they release that word, so
//! the slot is never contended. Its poison flag is how a release learns that
//! the holder panicked.
use vstd::prelude::*;

verus! {

#[verifier::external_type_specification]
#[verifier::external_body]
#[verifier::reject_recursive_types(T)]
pub struct ExStdMutex<T: ?Sized>(std::sync::Mutex<T>);

#[verifier::external_type_specification]
#[verifier::external_body]
#[verifier::reject_recursive_types(T)]
pub struct ExStdMutexGuard<'a, T: ?Sized + 'a>(std::sync::MutexGuard<'a, T>);

#[verifier::external_type_specification]
#[verifier::external_body]
#[verifier::reject_recursive_types(T)]
pub struct ExStdRwLock<T: ?Sized>(std::sync::RwLock<T>);

#[verifier::external_type_specification]
#[verifier::external_body]
#[verifier::reject_recursive_types(T)]
pub struct ExStdRwLockReadGuard<'a, T: ?Sized>(std::sync::RwLockReadGuard<'a, T>);

#[verifier::external_type_specification]
#[verifier::external_body]
#[verifier::reject_recursive_types(T)]
pub struct ExStdRwLockWriteGuard<'a, T: ?Sized + 'a>(std::sync::RwLockWriteGuard<'a, T>);

#[verifier::external_type_specification]
#[verifier::external_body]
#[verifier::reject_recursive_types(T)]
pub struct ExStdPoisonError<T>(std::sync::PoisonError<T>);

/// What an attempt to take a slot without blocking gave back.
#[verifier::reject_recursive_types(G)]
pub(crate) enum SlotAttempt<G> {
    /// The slot was taken, and it is not poisoned.
    Taken(G),
    /// The slot was taken, and it is poisoned.
    Poisoned(std::sync::PoisonError<G>),
    /// The slot is held elsewhere.
    Busy,
}

/// Calls `std::sync::Mutex::new`, which makes an unlocked slot holding `t`.
/// Nothing is claimed of it.
#[verifier::external_body]
pub(crate) fn mutex_slot_new<T>(t: T) -> std::sync::Mutex<T> {
    std::sync::Mutex::new(t)
}

/// Calls `std::sync::Mutex::try_lock`, which does not block, and tells its
/// three outcomes apart. Nothing is claimed of which one comes: that depends
/// on what other guards of the slot exist.
#[verifier::external_body]
pub(crate) fn mutex_slot_try_lock<T>(m: &std::sync::Mutex<T>) -> SlotAttempt<std::sync::MutexGuard<'_, T>> {
    match m.try_lock() {
        Ok(g) => SlotAttempt::Taken(g),
        Err(std::sync::TryLockError::Poisoned(e)) => SlotAttempt::Poisoned(e),
        Err(std::sync::TryLockError::WouldBlock) => SlotAttempt::Busy,
    }
}

/// Calls `std::sync::Mutex::is_poisoned`, which does not panic. Nothing is
/// claimed of the answer, which other threads may change.
#[verifier::external_body]
pub(crate) fn mutex_slot_is_poisoned<T>(m: &std::sync::Mutex<T>) -> bool
    opens_invariants none
    no_unwind
{
    m.is_poisoned()
}

/// Calls `std::sync::Mutex::into_inner`, which gives back the value, in an
/// error where the slot is poisoned. Nothing is claimed of the value.
#[verifier::external_body]
pub(crate) fn mutex_slot_into_inner<T>(m: std::sync::Mutex<T>) -> Result<T, std::sync::PoisonError<T>> {
    m.into_inner()
}

/// Calls `std::sync::Mutex::get_mut`, which borrows the value mutably, in an
/// error where the slot is poisoned. Nothing is claimed of the value.
#[verifier::external_body]
pub(crate) fn mutex_slot_get_mut<T>(m: &mut std::sync::Mutex<T>) -> Result<&mut T, std::sync::PoisonError<&mut T>> {
    m.get_mut()
}

/// Calls `Deref::deref` of `std::sync::MutexGuard`, which borrows the value.
/// Nothing is claimed of it.
#[verifier::external_body]
pub(crate) fn mutex_slot_ref<'b, 'a, T>(g: &'b std::sync::MutexGuard<'a, T>) -> &'b T {
    &**g
}

/// Calls `DerefMut::deref_mut` of `std::sync::MutexGuard`, which borrows the
/// value mutably. Nothing is claimed of it.
#[verifier::external_body]
pub(crate) fn mutex_slot_mut<'b, 'a, T>(g: &'b mut std::sync::MutexGuard<'a, T>) -> &'b mut T {
    &mut **g
}

/// Calls `std::sync::PoisonError::into_inner`, which gives back what the
/// poisoned operation would have returned. Nothing is claimed of it.
#[verifier::external_body]
pub(crate) fn poison_into_inner<G>(e: std::sync::PoisonError<G>) -> G {
    e.into_inner()
}

/// Calls `std::sync::RwLock::new`, which makes an unlocked slot holding `t`.
/// Nothing is claimed of it.
#[verifier::external_body]
pub(crate) fn rwlock_slot_new<T>(t: T) -> std::sync::RwLock<T> {
    std::sync::RwLock::new(t)
}

/// Calls `std::sync::RwLock::try_read`, which does not block, and tells its
/// three outcomes apart. Nothing is claimed of which one comes.
#[verifier::external_body]
pub(crate) fn rwlock_slot_try_read<T>(m: &std::sync::RwLock<T>) -> SlotAttempt<std::sync::RwLockReadGuard<'_, T>> {
    match m.try_read() {
        Ok(g) => SlotAttempt::Taken(g),
        Err(std::sync::TryLockError::Poisoned(e)) => SlotAttempt::Poisoned(e),
        Err(std::sync::TryLockError::WouldBlock) => SlotAttempt::Busy,
    }
}

/// Calls `std::sync::RwLock::try_write`, which does not block, and tells its
/// three outcomes apart. Nothing is claimed of which one comes.
#[verifier::external_body]
pub(crate) fn rwlock_slot_try_write<T>(m: &std::sync::RwLock<T>) -> SlotAttempt<std::sync::RwLockWriteGuard<'_, T>> {
    match m.try_write() {
        Ok(g) => SlotAttempt::Taken(g),
        Err(std::sync::TryLockError::Poisoned(e)) => SlotAttempt::Poisoned(e),
        Err(std::sync::TryLockError::WouldBlock) => SlotAttempt::Busy,
    }
}

/// Calls `std::sync::RwLock::is_poisoned`, which does not panic. Nothing is
/// claimed of the answer, which other threads may change.
#[verifier::external_body]
pub(crate) fn rwlock_slot_is_poisoned<T>(m: &std::sync::RwLock<T>) -> bool
    opens_invariants none
    no_unwind
{
    m.is_poisoned()
}

/// Calls `std::sync::RwLock::into_inner`, which gives back the value, in an
/// error where the slot is poisoned. Nothing is claimed of the value.
#[verifier::external_body]
pub(crate) fn rwlock_slot_into_inner<T>(m: std::sync::RwLock<T>) -> Result<T, std::sync::PoisonError<T>> {
    m.into_inner()
}

/// Calls `std::sync::RwLock::get_mut`, which borrows the value mutably, in
/// an error where the slot is poisoned. Nothing is claimed of the value.
#[verifier::external_body]
pub(crate) fn rwlock_slot_get_mut<T>(m: &mut std::sync::RwLock<T>) -> Result<&mut T, std::sync::PoisonError<&mut T>> {
    m.get_mut()
}

/// Calls `Deref::deref` of `std::sync::RwLockReadGuard`, which borrows the
/// value. Nothing is claimed of it.
#[verifier::external_body]
pub(crate) fn rwlock_slot_read_ref<'b, 'a, T>(g: &'b std::sync::RwLockReadGuard<'a, T>) -> &'b T {
    &**g
}

/// Calls `Deref::deref` of `std::sync::RwLockWriteGuard`, which borrows the
/// value. Nothing is claimed of it.
#[verifier::external_body]
pub(crate) fn rwlock_slot_write_ref<'b, 'a, T>(g: &'b std::sync::RwLockWriteGuard<'a, T>) -> &'b T {
    &**g
}

/// Calls `DerefMut::deref_mut` of `std::sync::RwLockWriteGuard`, which
/// borrows the value mutably. Nothing is claimed of it.
#[verifier::external_body]
pub(crate) fn rwlock_slot_write_mut<'b, 'a, T>(g: &'b mut std::sync::RwLockWriteGuard<'a, T>) -> &'b mut T {
    &mut **g
}

} // verus!
