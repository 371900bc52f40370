//! The atomic operations that the locks are built on.
//!
//! Another thread may change an atomic word between any two operations, so
//! what a load or a read-modify-write hands back is not a function of anything
//! this crate can see. The contracts below therefore say only what holds of
//! every outcome; the decisions taken on the values that come back are made by
//! the verified functions of the lock modules.
//!
//! A read-modify-write of a state word is one of the transitions below. Each
//! is a verified function that never panics; `fetch_update` applies it to the
//! word it finds, retrying where another thread changed the word meanwhile.
use vstd::prelude::*;
use std::sync::atomic::AtomicU8;
use std::sync::atomic::AtomicU64;
use std::sync::atomic::AtomicUsize;
use std::sync::atomic::Ordering;
use crate::barrier::{lock_acquisition, try_lock_generation};
use crate::mutex;
use crate::mutex8;
use crate::rwlock;

verus! {

/// Whether `order` may be used for an atomic load.
pub(crate) open spec fn load_order_ok(order: Ordering) -> bool {
    !(order is Release) && !(order is AcqRel)
}

/// Whether `order` may be used for an atomic store.
pub(crate) open spec fn store_order_ok(order: Ordering) -> bool {
    !(order is Acquire) && !(order is AcqRel)
}

/// Calls `AtomicU8::load`. Nothing is claimed of the value read: another
/// thread may have written any value. The ordering is restricted to those
/// for which the documentation says the call does not panic.
#[verifier::external_body]
pub(crate) fn load_u8(atomic: &AtomicU8, order: Ordering) -> u8
    requires
        load_order_ok(order),
    opens_invariants none
    no_unwind
{
    atomic.load(order)
}

/// Calls `AtomicU8::store`, which writes `val`, and returns `val`, the value
/// written; the ordering is restricted to those for which the documentation
/// says the call does not panic.
#[verifier::external_body]
pub(crate) fn store_u8(atomic: &AtomicU8, val: u8, order: Ordering) -> (r: u8)
    requires
        store_order_ok(order),
    ensures
        r == val,
    opens_invariants none
    no_unwind
{
    atomic.store(val, order);
    val
}

/// A state word that an atomic read-modify-write of this crate found, and
/// changed. It is made only by the wrappers of `fetch_update` below, so
/// outside this module it can only be handed on, never forged.
#[derive(Debug)]
pub(crate) struct Observed<W> {
    word: W,
}

impl<W: Copy> Observed<W> {
    /// The word found.
    pub(crate) closed spec fn word(&self) -> W {
        self.word
    }

    /// The word found.
    pub(crate) fn value(&self) -> (r: W)
        ensures
            r == self.word(),
        opens_invariants none
        no_unwind
    {
        self.word
    }
}

/// A transition of the 8-bit state word of a `Mutex` or a `Mutex8`.
#[derive(Clone, Copy)]
pub(crate) enum ByteStep {
    /// Lock a `Mutex`.
    LockMutex,
    /// Unlock a `Mutex` that this thread locked, without poisoning it.
    UnlockMutex,
    /// Take the locks of a `Mutex8` whose bits are given.
    LockBits(u8),
    /// Release the locks of a `Mutex8` whose bits are given.
    ReleaseBits(u8),
}

/// What `step` does to the word `s`: `None` where it refuses `s`, else the
/// word to store in its place.
pub(crate) open spec fn byte_transition(step: ByteStep, s: u8) -> Option<u8> {
    match step {
        ByteStep::LockMutex => mutex::acquisition(s),
        ByteStep::UnlockMutex => Some(mutex::released(s, false)),
        ByteStep::LockBits(b) => mutex8::bits_acquisition(s, b),
        ByteStep::ReleaseBits(b) => Some(mutex8::bits_released(s, b)),
    }
}

/// Applies `step` to the word `s`.
pub(crate) fn apply_byte_step(step: ByteStep, s: u8) -> (r: Option<u8>)
    ensures
        r == byte_transition(step, s),
    opens_invariants none
    no_unwind
{
    match step {
        ByteStep::LockMutex => mutex::try_acquire(s),
        ByteStep::UnlockMutex => Some(mutex::release_status(s, false)),
        ByteStep::LockBits(b) => mutex8::try_acquire_bits(s, b),
        ByteStep::ReleaseBits(b) => Some(mutex8::release_bits(s, b)),
    }
}

/// Calls `AtomicU8::fetch_update` with a closure that applies `step`, a
/// verified function that does not panic. As documented, the closure is
/// applied to the current word until either it returns `None`, and the call
/// returns `Err` with the word it was applied to, or it returns `Some(new)`
/// and `new` is stored atomically in place of the word it was applied to,
/// which the call returns in `Ok` (as an `Observed` word). The claim is only
/// that the returned word is one on which `step` gave that answer. The call panics only for a load
/// ordering that `requires` excludes, or where the closure panics.
#[verifier::external_body]
pub(crate) fn fetch_update_u8(
    atomic: &AtomicU8,
    set_order: Ordering,
    fetch_order: Ordering,
    step: ByteStep,
) -> (r: Result<Observed<u8>, u8>)
    requires
        load_order_ok(fetch_order),
    ensures
        r matches Ok(prev) ==> byte_transition(step, prev.word()) is Some,
        r matches Err(prev) ==> byte_transition(step, prev) is None,
    opens_invariants none
    no_unwind
{
    match atomic.fetch_update(set_order, fetch_order, |s| apply_byte_step(step, s)) {
        Ok(word) => Ok(Observed { word }),
        Err(word) => Err(word),
    }
}

/// A transition of the 64-bit state word of an `RwLock`.
#[derive(Clone, Copy)]
pub(crate) enum WordStep {
    /// Take a lock for the given access.
    Lock(rwlock::Access),
    /// Give back one read lock; refused where no read lock is held.
    ReleaseRead,
    /// Give back the write lock, without poisoning.
    ReleaseWrite,
}

/// What `step` does to the word `s`: `None` where it refuses `s`, else the
/// word to store in its place.
pub(crate) open spec fn word_transition(step: WordStep, s: u64) -> Option<u64> {
    match step {
        WordStep::Lock(access) => rwlock::acquisition(access, s),
        WordStep::ReleaseRead => rwlock::read_release(s),
        WordStep::ReleaseWrite => Some(rwlock::write_released(s, false)),
    }
}

/// Applies `step` to the word `s`.
pub(crate) fn apply_word_step(step: WordStep, s: u64) -> (r: Option<u64>)
    ensures
        r == word_transition(step, s),
    opens_invariants none
    no_unwind
{
    match step {
        WordStep::Lock(access) => rwlock::try_acquire(access, s),
        WordStep::ReleaseRead => rwlock::try_release_shared(s),
        WordStep::ReleaseWrite => Some(rwlock::release_write_status(s, false)),
    }
}

/// Calls `AtomicU64::fetch_update` with a closure that applies `step`; see
/// `fetch_update_u8` for what is claimed.
#[verifier::external_body]
pub(crate) fn fetch_update_u64(
    atomic: &AtomicU64,
    set_order: Ordering,
    fetch_order: Ordering,
    step: WordStep,
) -> (r: Result<Observed<u64>, u64>)
    requires
        load_order_ok(fetch_order),
    ensures
        r matches Ok(prev) ==> word_transition(step, prev.word()) is Some,
        r matches Err(prev) ==> word_transition(step, prev) is None,
    opens_invariants none
    no_unwind
{
    match atomic.fetch_update(set_order, fetch_order, |s| apply_word_step(step, s)) {
        Ok(word) => Ok(Observed { word }),
        Err(word) => Err(word),
    }
}

/// Calls `AtomicU64::load`. Nothing is claimed of the value read.
#[verifier::external_body]
pub(crate) fn load_u64(atomic: &AtomicU64, order: Ordering) -> u64
    requires
        load_order_ok(order),
    opens_invariants none
    no_unwind
{
    atomic.load(order)
}

/// Calls `AtomicU64::store`, which writes `val`, and returns `val`.
#[verifier::external_body]
pub(crate) fn store_u64(atomic: &AtomicU64, val: u64, order: Ordering) -> (r: u64)
    requires
        store_order_ok(order),
    ensures
        r == val,
    opens_invariants none
    no_unwind
{
    atomic.store(val, order);
    val
}

/// Calls `AtomicUsize::load`. Nothing is claimed of the value read.
#[verifier::external_body]
pub(crate) fn load_usize(atomic: &AtomicUsize, order: Ordering) -> usize
    requires
        load_order_ok(order),
    opens_invariants none
    no_unwind
{
    atomic.load(order)
}

/// Calls `AtomicUsize::store`, which writes `val`, and returns `val`.
#[verifier::external_body]
pub(crate) fn store_usize(atomic: &AtomicUsize, val: usize, order: Ordering) -> (r: usize)
    requires
        store_order_ok(order),
    ensures
        r == val,
    opens_invariants none
    no_unwind
{
    atomic.store(val, order);
    val
}

/// Calls `AtomicUsize::fetch_update` with a closure that applies
/// `try_lock_generation`, a verified function that does not panic: an
/// attempt to take the internal lock of a `Barrier`. See `fetch_update_u8`
/// for what is claimed.
#[verifier::external_body]
pub(crate) fn fetch_update_usize(
    atomic: &AtomicUsize,
    set_order: Ordering,
    fetch_order: Ordering,
) -> (r: Result<Observed<usize>, usize>)
    requires
        load_order_ok(fetch_order),
    ensures
        r matches Ok(prev) ==> lock_acquisition(prev.word()) is Some,
        r matches Err(prev) ==> lock_acquisition(prev) is None,
{
    match atomic.fetch_update(set_order, fetch_order, |g| try_lock_generation(g)) {
        Ok(word) => Ok(Observed { word }),
        Err(word) => Err(word),
    }
}

} // verus!
