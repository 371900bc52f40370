//! A reader-writer lock that waits by spinning, with poisoning.
use vstd::prelude::*;
use std::sync::atomic::AtomicU64;
use std::sync::atomic::Ordering;
use crate::atomic::{Observed, WordStep, fetch_update_u64, load_u64, store_u64};
use crate::result::{LockResult, TryLockError, TryLockResult, poison_result, try_result};
use crate::slot::{
    SlotAttempt, poison_into_inner, rwlock_slot_get_mut, rwlock_slot_into_inner,
    rwlock_slot_is_poisoned, rwlock_slot_new, rwlock_slot_read_ref, rwlock_slot_try_read,
    rwlock_slot_try_write, rwlock_slot_write_mut, rwlock_slot_write_ref,
};

verus! {

/// The state word of an `RwLock`. The most significant bit is the poison
/// flag, the next one the exclusive write lock flag, and the others count the
/// shared read locks.
pub type LockStatus = u64;

/// The state of a new lock: no lock held, not poisoned.
pub const INIT: LockStatus = 0;
/// The bits that count the shared read locks.
pub const SHARED_LOCK_MASK: LockStatus = 0x3fffffffffffffff;
/// Set while the exclusive write lock is held.
pub const EXCLUSIVE_LOCK_FLAG: LockStatus = 0x4000000000000000;
/// Set once a holder of the write lock panicked; never cleared.
pub const POISON_FLAG: LockStatus = 0x8000000000000000;

/// Whether `s` records that a holder of the write lock panicked.
pub open spec fn poisoned(s: LockStatus) -> bool {
    s & POISON_FLAG != 0
}

/// Whether `s` records any lock held, shared or exclusive.
pub open spec fn locked(s: LockStatus) -> bool {
    s & !POISON_FLAG != 0
}

/// Whether `s` records the exclusive write lock held.
pub open spec fn locked_exclusively(s: LockStatus) -> bool {
    s & EXCLUSIVE_LOCK_FLAG != 0
}

/// The number of shared read locks that `s` records.
pub open spec fn shared_count(s: LockStatus) -> LockStatus {
    s & SHARED_LOCK_MASK
}

/// The two kinds of access that an `RwLock` grants.
#[derive(PartialEq, Eq, Structural, Clone, Copy)]
pub enum Access {
    /// A shared read lock, of which many may be held at once.
    Shared,
    /// The exclusive write lock.
    Exclusive,
}

/// What an attempt to lock for `access` does to the state `s` it finds: a
/// shared lock is refused while the write lock is held (or while the count
/// of readers is at its maximum) and otherwise adds one reader; the write
/// lock is refused while any lock is held and otherwise sets its flag.
pub open spec fn acquisition(access: Access, s: LockStatus) -> Option<LockStatus> {
    match access {
        Access::Shared => if locked_exclusively(s) || shared_count(s) == SHARED_LOCK_MASK {
            None
        } else {
            Some((s + 1) as LockStatus)
        },
        Access::Exclusive => if locked(s) {
            None
        } else {
            Some(s | EXCLUSIVE_LOCK_FLAG)
        },
    }
}

/// The state the release of the write lock leaves behind, where `panicked`
/// tells whether its holder panicked.
pub open spec fn write_released(s: LockStatus, panicked: bool) -> LockStatus {
    if panicked {
        (s & !EXCLUSIVE_LOCK_FLAG) | POISON_FLAG
    } else {
        s & !EXCLUSIVE_LOCK_FLAG
    }
}

/// The state the release of a read lock leaves behind.
pub open spec fn read_released(s: LockStatus) -> LockStatus {
    (s - 1) as LockStatus
}

/// What the release of a read lock does to the state `s` it finds: it is
/// refused where no read lock is held, and otherwise removes one reader.
pub open spec fn read_release(s: LockStatus) -> Option<LockStatus> {
    if shared_count(s) > 0 {
        Some(read_released(s))
    } else {
        None
    }
}

proof fn lemma_status_bits(s: LockStatus)
    by (bit_vector)
    ensures
        (s | POISON_FLAG) & POISON_FLAG != 0,
        ((s | POISON_FLAG) & !POISON_FLAG) == s & !POISON_FLAG,
        (s | EXCLUSIVE_LOCK_FLAG) & EXCLUSIVE_LOCK_FLAG != 0,
        ((s | EXCLUSIVE_LOCK_FLAG) & POISON_FLAG) == s & POISON_FLAG,
        (s | EXCLUSIVE_LOCK_FLAG) & !POISON_FLAG != 0,
        (s & !EXCLUSIVE_LOCK_FLAG) & EXCLUSIVE_LOCK_FLAG == 0,
        ((s & !EXCLUSIVE_LOCK_FLAG) & POISON_FLAG) == s & POISON_FLAG,
        ((s & !EXCLUSIVE_LOCK_FLAG) & SHARED_LOCK_MASK) == s & SHARED_LOCK_MASK,
        ((s & !EXCLUSIVE_LOCK_FLAG) | POISON_FLAG) & POISON_FLAG != 0,
        ((s & !EXCLUSIVE_LOCK_FLAG) | POISON_FLAG) & EXCLUSIVE_LOCK_FLAG == 0,
        (((s & !EXCLUSIVE_LOCK_FLAG) | POISON_FLAG) & SHARED_LOCK_MASK) == s & SHARED_LOCK_MASK,
        s & !POISON_FLAG == 0 ==> (s | EXCLUSIVE_LOCK_FLAG) & !EXCLUSIVE_LOCK_FLAG == s,
        s & !POISON_FLAG == 0 ==> ((s | EXCLUSIVE_LOCK_FLAG) & SHARED_LOCK_MASK) == 0,
        s & EXCLUSIVE_LOCK_FLAG != 0 ==> s & !POISON_FLAG != 0,
        s & SHARED_LOCK_MASK != 0 ==> s & !POISON_FLAG != 0,
        s & !POISON_FLAG != 0 ==> (s & EXCLUSIVE_LOCK_FLAG != 0 || s & SHARED_LOCK_MASK != 0),
        s & SHARED_LOCK_MASK != SHARED_LOCK_MASK ==> (
            s + 1 <= 0xffffffffffffffff
            && ((s + 1) as u64) & SHARED_LOCK_MASK == (s & SHARED_LOCK_MASK) + 1
            && ((s + 1) as u64) & EXCLUSIVE_LOCK_FLAG == s & EXCLUSIVE_LOCK_FLAG
            && ((s + 1) as u64) & POISON_FLAG == s & POISON_FLAG),
        s & SHARED_LOCK_MASK != 0 ==> (
            s >= 1
            && ((s - 1) as u64) & SHARED_LOCK_MASK == (s & SHARED_LOCK_MASK) - 1
            && ((s - 1) as u64) & EXCLUSIVE_LOCK_FLAG == s & EXCLUSIVE_LOCK_FLAG
            && ((s - 1) as u64) & POISON_FLAG == s & POISON_FLAG),
{
}

/// The flags and the reader count occupy disjoint bits, and together every
/// bit of the state word.
pub proof fn lemma_flags_partition()
    ensures
        INIT & SHARED_LOCK_MASK == 0,
        INIT & EXCLUSIVE_LOCK_FLAG == 0,
        INIT & POISON_FLAG == 0,
        SHARED_LOCK_MASK & EXCLUSIVE_LOCK_FLAG == 0,
        SHARED_LOCK_MASK & POISON_FLAG == 0,
        EXCLUSIVE_LOCK_FLAG & POISON_FLAG == 0,
        INIT | SHARED_LOCK_MASK | EXCLUSIVE_LOCK_FLAG | POISON_FLAG == u64::MAX,
{
    assert(SHARED_LOCK_MASK & EXCLUSIVE_LOCK_FLAG == 0
        && SHARED_LOCK_MASK & POISON_FLAG == 0
        && EXCLUSIVE_LOCK_FLAG & POISON_FLAG == 0
        && 0u64 | SHARED_LOCK_MASK | EXCLUSIVE_LOCK_FLAG | POISON_FLAG == 0xffffffffffffffffu64
        && 0u64 & SHARED_LOCK_MASK == 0 && 0u64 & EXCLUSIVE_LOCK_FLAG == 0
        && 0u64 & POISON_FLAG == 0) by (bit_vector);
}

/// Whether the state `s` is poisoned.
pub fn is_poisoned(s: LockStatus) -> (r: bool)
    ensures
        r == poisoned(s),
    opens_invariants none
    no_unwind
{
    (s & POISON_FLAG) != 0
}

/// The state `s` with the poison flag set.
pub fn set_poison_flag(s: LockStatus) -> (r: LockStatus)
    ensures
        r == s | POISON_FLAG,
        poisoned(r),
        r & !POISON_FLAG == s & !POISON_FLAG,
    opens_invariants none
    no_unwind
{
    proof {
        lemma_status_bits(s);
    }
    s | POISON_FLAG
}

/// Whether the state `s` records any lock held, shared or exclusive.
pub fn is_locked(s: LockStatus) -> (r: bool)
    ensures
        r == locked(s),
        r == (locked_exclusively(s) || shared_count(s) != 0),
    opens_invariants none
    no_unwind
{
    proof {
        lemma_status_bits(s);
    }
    (s & !POISON_FLAG) != 0
}

/// Whether the state `s` records the write lock held.
pub fn is_locked_exclusively(s: LockStatus) -> (r: bool)
    ensures
        r == locked_exclusively(s),
    opens_invariants none
    no_unwind
{
    (s & EXCLUSIVE_LOCK_FLAG) != 0
}

/// The state `s` with the write lock flag set.
pub fn acquire_exclusive_lock(s: LockStatus) -> (r: LockStatus)
    ensures
        r == s | EXCLUSIVE_LOCK_FLAG,
        locked_exclusively(r),
        poisoned(r) == poisoned(s),
    opens_invariants none
    no_unwind
{
    proof {
        lemma_status_bits(s);
    }
    s | EXCLUSIVE_LOCK_FLAG
}

/// The state `s` with the write lock flag cleared.
pub fn release_exclusive_lock(s: LockStatus) -> (r: LockStatus)
    ensures
        r == s & !EXCLUSIVE_LOCK_FLAG,
        !locked_exclusively(r),
        poisoned(r) == poisoned(s),
        shared_count(r) == shared_count(s),
    opens_invariants none
    no_unwind
{
    proof {
        lemma_status_bits(s);
    }
    s & !EXCLUSIVE_LOCK_FLAG
}

/// The number of shared read locks that the state `s` records.
pub fn count_shared_locks(s: LockStatus) -> (r: u64)
    ensures
        r == shared_count(s),
    opens_invariants none
    no_unwind
{
    s & SHARED_LOCK_MASK
}

/// The state `s` with one more shared read lock. The count must be below its
/// maximum.
pub fn acquire_shared_lock(s: LockStatus) -> (r: LockStatus)
    requires
        shared_count(s) != SHARED_LOCK_MASK,
    ensures
        r == s + 1,
        shared_count(r) == shared_count(s) + 1,
        locked_exclusively(r) == locked_exclusively(s),
        poisoned(r) == poisoned(s),
    opens_invariants none
    no_unwind
{
    proof {
        lemma_status_bits(s);
    }
    s + 1
}

/// The state `s` with one shared read lock fewer. The count must be positive.
pub fn release_shared_lock(s: LockStatus) -> (r: LockStatus)
    requires
        shared_count(s) > 0,
    ensures
        r == s - 1,
        r == read_released(s),
        shared_count(r) == shared_count(s) - 1,
        locked_exclusively(r) == locked_exclusively(s),
        poisoned(r) == poisoned(s),
    opens_invariants none
    no_unwind
{
    proof {
        lemma_status_bits(s);
    }
    s - 1
}

/// Reads the state word of `lock`, and whether it records a poisoning.
fn read_poison(lock: &AtomicU64) -> (r: (LockStatus, bool))
    ensures
        r.1 <==> r.0 & POISON_FLAG != 0,
{
    let s = load_u64(lock, Ordering::Relaxed);
    (s, is_poisoned(s))
}

/// One attempt to give back a read lock in the state `s`: `None` where no
/// read lock is held, else the state to store in its place.
pub fn try_release_shared(s: LockStatus) -> (r: Option<LockStatus>)
    ensures
        r == read_release(s),
    opens_invariants none
    no_unwind
{
    if count_shared_locks(s) > 0 {
        Some(release_shared_lock(s))
    } else {
        None
    }
}

/// One attempt to lock the state `s` for `access`: `None` where it is
/// refused, else the state to store in its place.
pub fn try_acquire(access: Access, s: LockStatus) -> (r: Option<LockStatus>)
    ensures
        r == acquisition(access, s),
    opens_invariants none
    no_unwind
{
    match access {
        Access::Shared => {
            if is_locked_exclusively(s) || count_shared_locks(s) == SHARED_LOCK_MASK {
                None
            } else {
                Some(acquire_shared_lock(s))
            }
        },
        Access::Exclusive => {
            if is_locked(s) {
                None
            } else {
                Some(acquire_exclusive_lock(s))
            }
        },
    }
}

/// What an attempt to lock returns, given `found`, the state word it found
/// (`Ok` where the attempt took the lock, `Err` where it was refused), and the
/// guard it made (`None` where it could not take the slot of the value):
/// `WouldBlock` where it was refused or has no guard, else the guard,
/// wrapped in `Poisoned` where the state found was poisoned.
pub fn lock_outcome<G>(found: Result<LockStatus, LockStatus>, guard: Option<G>) -> (r: TryLockResult<G>)
    ensures
        (found is Err || guard is None) ==> (r matches Err(TryLockError::WouldBlock)),
        (match (found, guard) {
            (Ok(s), Some(g)) => if poisoned(s) {
                r matches Err(TryLockError::Poisoned(e)) && e.inner() == g
            } else {
                r == Ok::<G, TryLockError<G>>(g)
            },
            _ => true,
        }),
{
    match (found, guard) {
        (Ok(s), Some(g)) => try_result(poison_result(g, is_poisoned(s))),
        _ => Err(TryLockError::WouldBlock),
    }
}

/// The state that the release of the write lock stores, given the state `s`
/// it finds and whether the holder panicked.
pub fn release_write_status(s: LockStatus, panicked: bool) -> (r: LockStatus)
    ensures
        r == write_released(s, panicked),
    opens_invariants none
    no_unwind
{
    let r = release_exclusive_lock(s);
    if panicked {
        set_poison_flag(r)
    } else {
        r
    }
}

/// A reader-writer lock that waits by spinning.
///
/// It grants either any number of shared read locks or one exclusive write
/// lock at a time. The value is reached only through the guards that
/// `try_read` and `try_write` hand out (and the blocking `read` and `write`
/// built on them). A write guard dropped while its thread panics poisons the
/// lock; a read guard never does. The panic is learnt from the poison flag of
/// the slot, which `std` sets only for a guard taken before the thread began
/// to unwind.
#[verifier::reject_recursive_types(T)]
#[derive(Debug)]
pub struct RwLock<T> {
    lock: AtomicU64,
    data: std::sync::RwLock<T>,
}

/// A shared read lock of an `RwLock`, which ends when the guard is dropped.
#[verifier::reject_recursive_types(T)]
#[derive(Debug)]
pub struct RwLockReadGuard<'a, T> {
    // Declared first so that it is dropped before `release` runs.
    slot: std::sync::RwLockReadGuard<'a, T>,
    release: ReadRelease<'a, T>,
    found: Observed<LockStatus>,
}

/// The exclusive write lock of an `RwLock`, which ends when the guard is
/// dropped.
#[verifier::reject_recursive_types(T)]
#[derive(Debug)]
pub struct RwLockWriteGuard<'a, T> {
    // Declared first so that it is dropped before `release` runs.
    slot: std::sync::RwLockWriteGuard<'a, T>,
    release: WriteRelease<'a, T>,
    found: Observed<LockStatus>,
}

/// Gives back a read lock when it is dropped.
#[verifier::reject_recursive_types(T)]
#[derive(Debug)]
struct ReadRelease<'a, T> {
    rwlock: &'a RwLock<T>,
}

/// Gives back the write lock when it is dropped.
#[verifier::reject_recursive_types(T)]
#[derive(Debug)]
struct WriteRelease<'a, T> {
    rwlock: &'a RwLock<T>,
}

impl<T> RwLock<T> {
    /// The maximum number of shared read locks held at once.
    pub const MAX_READ_LOCK_COUNT: u64 = SHARED_LOCK_MASK;

    /// Creates a lock, with no lock held and not poisoned, that protects `t`.
    pub fn new(t: T) -> Self {
        RwLock { lock: AtomicU64::new(INIT), data: rwlock_slot_new(t) }
    }

    /// Consumes the lock and returns its value, wrapped in an error where the
    /// lock is poisoned. No lock is taken: nobody else can reach `self`.
    pub fn into_inner(self) -> LockResult<T> {
        let RwLock { lock, data } = self;
        let (_, poisoned) = read_poison(&lock);
        let value = match rwlock_slot_into_inner(data) {
            Ok(v) => v,
            Err(e) => poison_into_inner(e),
        };
        poison_result(value, poisoned)
    }

    /// One attempt to lock for `access`: `Ok` with the state found, where
    /// this call took the lock, else `Err` with the state found, which
    /// refuses the request.
    fn try_lock(&self, access: Access) -> (r: Result<Observed<LockStatus>, LockStatus>)
        ensures
            r matches Ok(s) ==> acquisition(access, s.word()) is Some,
            r matches Err(s) ==> acquisition(access, s) is None,
    {
        fetch_update_u64(&self.lock, Ordering::Acquire, Ordering::Acquire, WordStep::Lock(access))
    }

    /// Attempts to take a shared read lock without blocking.
    ///
    /// Returns `WouldBlock` where the write lock is held, where the count of
    /// readers is at its maximum, `MAX_READ_LOCK_COUNT`, or where the slot
    /// of the value refuses a further reader at its own, lower, limit;
    /// otherwise the guard, wrapped in `Poisoned` where a writer panicked.
    pub fn try_read(&self) -> (r: TryLockResult<RwLockReadGuard<'_, T>>)
        ensures
            r matches Ok(g) ==> g.rwlock() == *self
                && acquisition(Access::Shared, g.found()) is Some && !poisoned(g.found()),
            r matches Err(TryLockError::Poisoned(e)) ==> e.inner().rwlock() == *self
                && acquisition(Access::Shared, e.inner().found()) is Some && poisoned(e.inner().found()),
    {
        let found = self.try_lock(Access::Shared);
        let word = match &found {
            Ok(s) => Ok(s.value()),
            Err(s) => Err(*s),
        };
        let guard = match found {
            Err(_) => None,
            Ok(s) => {
                let taken = match rwlock_slot_try_read(&self.data) {
                    SlotAttempt::Taken(g) => Some(g),
                    SlotAttempt::Poisoned(e) => Some(poison_into_inner(e)),
                    SlotAttempt::Busy => None,
                };
                match taken {
                    Some(slot) => Some(RwLockReadGuard::new(self, slot, s)),
                    None => {
                        // The slot refuses a reader only while written, which
                        // the state word excludes, or at its own limit of
                        // readers; give the read lock back and report
                        // contention.
                        let _ = fetch_update_u64(&self.lock, Ordering::Release, Ordering::Relaxed, WordStep::ReleaseRead);
                        None
                    },
                }
            },
        };
        lock_outcome(word, guard)
    }

    /// Attempts to take the exclusive write lock without blocking.
    ///
    /// Returns `WouldBlock` where any lock is held; otherwise the guard,
    /// wrapped in `Poisoned` where a writer panicked.
    pub fn try_write(&self) -> (r: TryLockResult<RwLockWriteGuard<'_, T>>)
        ensures
            r matches Ok(g) ==> g.rwlock() == *self
                && acquisition(Access::Exclusive, g.found()) is Some && !poisoned(g.found()),
            r matches Err(TryLockError::Poisoned(e)) ==> e.inner().rwlock() == *self
                && acquisition(Access::Exclusive, e.inner().found()) is Some && poisoned(e.inner().found()),
    {
        let found = self.try_lock(Access::Exclusive);
        let word = match &found {
            Ok(s) => Ok(s.value()),
            Err(s) => Err(*s),
        };
        let guard = match found {
            Err(_) => None,
            Ok(s) => {
                let taken = match rwlock_slot_try_write(&self.data) {
                    SlotAttempt::Taken(g) => Some(g),
                    SlotAttempt::Poisoned(e) => Some(poison_into_inner(e)),
                    SlotAttempt::Busy => None,
                };
                match taken {
                    Some(slot) => Some(RwLockWriteGuard::new(self, slot, s)),
                    None => {
                        // The slot is only held under this lock, so this does
                        // not happen; give the write lock back.
                        let _ = fetch_update_u64(&self.lock, Ordering::Release, Ordering::Relaxed, WordStep::ReleaseWrite);
                        None
                    },
                }
            },
        };
        lock_outcome(word, guard)
    }

    /// Whether the lock is poisoned. No lock is taken, so another thread may
    /// poison it right after this returns `false`.
    pub fn is_poisoned(&self) -> bool {
        read_poison(&self.lock).1
    }

    /// Gives back the write lock of a guard whose slot was just given back:
    /// reads the state word, learns from the slot whether the holder
    /// panicked, and stores the released word. Returns the word read, whether
    /// the holder panicked, and the word stored, which has the write lock
    /// flag cleared, keeps the count of readers, and is poisoned exactly where
    /// the word read was or the holder panicked.
    fn release_writer(&self) -> (r: (LockStatus, bool, LockStatus))
        ensures
            r.2 == write_released(r.0, r.1),
            !locked_exclusively(r.2),
            shared_count(r.2) == shared_count(r.0),
            poisoned(r.2) <==> (poisoned(r.0) || r.1),
        opens_invariants none
        no_unwind
    {
        let s = load_u64(&self.lock, Ordering::Relaxed);
        let panicked = rwlock_slot_is_poisoned(&self.data);
        let stored = store_u64(&self.lock, release_write_status(s, panicked), Ordering::Release);
        proof {
            lemma_write_release_exact(s, panicked);
        }
        (s, panicked, stored)
    }

    /// A mutable reference to the value, wrapped in an error where the lock
    /// is poisoned. No lock is taken: the caller has `self` to itself.
    pub fn get_mut(&mut self) -> LockResult<&mut T> {
        let poisoned = self.is_poisoned();
        let value = match rwlock_slot_get_mut(&mut self.data) {
            Ok(v) => v,
            Err(e) => poison_into_inner(e),
        };
        poison_result(value, poisoned)
    }
}

impl<T> From<T> for RwLock<T> {
    /// A new lock that protects `t`.
    fn from(t: T) -> Self {
        RwLock::new(t)
    }
}

impl<T> vstd::std_specs::convert::FromSpecImpl<T> for RwLock<T> {
    /// No claim is made of the lock made: its state lives in atomics.
    open spec fn obeys_from_spec() -> bool {
        false
    }

    open spec fn from_spec(t: T) -> Self {
        vstd::pervasive::arbitrary()
    }
}

impl<T: Default> Default for RwLock<T> {
    /// A new lock that protects the default value of `T`.
    fn default() -> Self {
        RwLock::new(T::default())
    }
}

impl<'a, T> RwLockReadGuard<'a, T> {
    /// The lock this guard holds a read lock of.
    pub closed spec fn rwlock(&self) -> RwLock<T> {
        *self.release.rwlock
    }

    /// The state word that the lock operation which made this guard found
    /// and changed.
    pub closed spec fn found(&self) -> LockStatus {
        self.found.word()
    }

    fn new(rwlock: &'a RwLock<T>, slot: std::sync::RwLockReadGuard<'a, T>, found: Observed<LockStatus>) -> (g: Self)
        ensures
            g.rwlock() == *rwlock,
            g.found() == found.word(),
    {
        RwLockReadGuard { slot, release: ReadRelease { rwlock }, found }
    }
}

impl<'a, T> RwLockWriteGuard<'a, T> {
    /// The lock this guard holds the write lock of.
    pub closed spec fn rwlock(&self) -> RwLock<T> {
        *self.release.rwlock
    }

    /// The state word that the lock operation which made this guard found
    /// and changed.
    pub closed spec fn found(&self) -> LockStatus {
        self.found.word()
    }

    fn new(rwlock: &'a RwLock<T>, slot: std::sync::RwLockWriteGuard<'a, T>, found: Observed<LockStatus>) -> (g: Self)
        ensures
            g.rwlock() == *rwlock,
            g.found() == found.word(),
    {
        RwLockWriteGuard { slot, release: WriteRelease { rwlock }, found }
    }
}

impl<'a, T> std::ops::Deref for RwLockReadGuard<'a, T> {
    type Target = T;

    fn deref(&self) -> &T {
        rwlock_slot_read_ref(&self.slot)
    }
}

impl<'a, T> std::ops::Deref for RwLockWriteGuard<'a, T> {
    type Target = T;

    fn deref(&self) -> &T {
        rwlock_slot_write_ref(&self.slot)
    }
}

impl<'a, T> std::ops::DerefMut for RwLockWriteGuard<'a, T> {
    fn deref_mut(&mut self) -> &mut T {
        rwlock_slot_write_mut(&mut self.slot)
    }
}

impl<'a, T> Drop for ReadRelease<'a, T> {
    /// Gives back one read lock. This never poisons the lock.
    fn drop(&mut self)
        opens_invariants none
        no_unwind
    {
        let _ = fetch_update_u64(&self.rwlock.lock, Ordering::Release, Ordering::Relaxed, WordStep::ReleaseRead);
    }
}

impl<'a, T> Drop for WriteRelease<'a, T> {
    /// Gives back the write lock, poisoning the lock where the holder
    /// panicked: the slot, given back just before, records that.
    fn drop(&mut self)
        opens_invariants none
        no_unwind
    {
        let _ = self.rwlock.release_writer();
    }
}

/// Either a number of readers or one writer: the write lock is granted only
/// where no lock is held; a read lock only where the write lock is not held;
/// once the write lock is granted every request is refused; once a read lock
/// is granted the write lock is refused, and another read lock is not
/// (short of the maximum count, `MAX_READ_LOCK_COUNT`, at which a read lock
/// is refused).
pub proof fn lemma_readers_or_one_writer(s: LockStatus)
    ensures
        acquisition(Access::Exclusive, s) is Some ==> !locked_exclusively(s) && shared_count(s) == 0,
        acquisition(Access::Shared, s) is Some ==> !locked_exclusively(s),
        shared_count(s) == SHARED_LOCK_MASK ==> acquisition(Access::Shared, s) is None,
        acquisition(Access::Exclusive, s) matches Some(t) ==> (
            acquisition(Access::Shared, t) is None && acquisition(Access::Exclusive, t) is None),
        acquisition(Access::Shared, s) matches Some(t) ==> (
            acquisition(Access::Exclusive, t) is None
            && (shared_count(t) != SHARED_LOCK_MASK ==> acquisition(Access::Shared, t) is Some)),
{
    lemma_status_bits(s);
    if let Some(t) = acquisition(Access::Exclusive, s) {
        lemma_status_bits(t);
    }
    if let Some(t) = acquisition(Access::Shared, s) {
        lemma_status_bits(t);
    }
}

/// Lock and release undo each other, for a read lock and for the write lock
/// released without a panic.
pub proof fn lemma_release_undoes_acquire(s: LockStatus)
    ensures
        acquisition(Access::Shared, s) matches Some(t) ==> read_released(t) == s,
        acquisition(Access::Exclusive, s) matches Some(t) ==> write_released(t, false) == s,
{
    lemma_status_bits(s);
}

/// The release of a read lock removes exactly one reader and keeps the
/// write lock flag and the poison flag as they were; it is refused where no
/// read lock is held.
pub proof fn lemma_read_release(s: LockStatus)
    ensures
        shared_count(s) == 0 ==> read_release(s) is None,
        read_release(s) matches Some(t) ==> shared_count(t) == shared_count(s) - 1
            && locked_exclusively(t) == locked_exclusively(s)
            && poisoned(t) == poisoned(s),
{
    lemma_status_bits(s);
}

/// What the release of the write lock does: it clears the write lock flag,
/// keeps the count of readers, and leaves the state poisoned exactly where it
/// was poisoned before or the holder panicked; so after a panicking writer
/// every later lock, shared or exclusive, reports the poisoning.
pub proof fn lemma_write_release_exact(s: LockStatus, panicked: bool)
    ensures
        !locked_exclusively(write_released(s, panicked)),
        shared_count(write_released(s, panicked)) == shared_count(s),
        poisoned(write_released(s, panicked)) <==> (poisoned(s) || panicked),
        panicked ==> forall|a: Access| #[trigger] acquisition(a, write_released(s, panicked)) matches Some(t)
            ==> poisoned(t),
{
    lemma_status_bits(s);
    lemma_only_writers_poison(s, panicked);
    let w = write_released(s, panicked);
    lemma_only_writers_poison(w, false);
}

/// Only a writer poisons: taking or giving back a read lock, and taking the
/// write lock, keep the poison flag as it was; a release of the write lock
/// sets it exactly where the holder panicked, and leaves no lock held.
pub proof fn lemma_only_writers_poison(s: LockStatus, panicked: bool)
    ensures
        acquisition(Access::Shared, s) matches Some(t) ==> poisoned(t) == poisoned(s),
        shared_count(s) > 0 ==> poisoned(read_released(s)) == poisoned(s),
        acquisition(Access::Exclusive, s) matches Some(t) ==> poisoned(t) == poisoned(s),
        poisoned(write_released(s, panicked)) == (poisoned(s) || panicked),
        shared_count(s) == 0 ==> !locked(write_released(s, panicked)),
{
    lemma_status_bits(s);
    lemma_status_bits(write_released(s, panicked));
}

} // verus!
