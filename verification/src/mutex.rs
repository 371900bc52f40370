//! A mutual exclusion lock that waits by spinning, with poisoning.
use vstd::prelude::*;
use std::sync::atomic::AtomicU8;
use std::sync::atomic::Ordering;
use crate::atomic::{ByteStep, Observed, fetch_update_u8, load_u8, store_u8};
use crate::result::{LockResult, TryLockError, TryLockResult, poison_result, try_result};
use crate::slot::{
    SlotAttempt, mutex_slot_get_mut, mutex_slot_into_inner, mutex_slot_is_poisoned,
    mutex_slot_mut, mutex_slot_new, mutex_slot_ref, mutex_slot_try_lock, poison_into_inner,
};

verus! {

/// The state word of a `Mutex`: a lock flag and a poison flag.
pub type LockStatus = u8;

/// The state of a new mutex: unlocked and not poisoned.
pub const INIT: LockStatus = 0;
/// Set while a guard holds the mutex.
pub const LOCK_FLAG: LockStatus = 0x01;
/// Set once a holder of the mutex panicked; never cleared.
pub const POISON_FLAG: LockStatus = 0x02;
/// The bits that the state word does not use.
pub const NOT_USED_MASK: LockStatus = 0xfc;

/// Whether `s` records that a guard holds the mutex.
pub open spec fn locked(s: LockStatus) -> bool {
    s & LOCK_FLAG != 0
}

/// Whether `s` records that a holder of the mutex panicked.
pub open spec fn poisoned(s: LockStatus) -> bool {
    s & POISON_FLAG != 0
}

/// What an attempt to lock does to the state `s` it finds: it leaves a locked
/// state alone, and sets the lock flag of any other.
pub open spec fn acquisition(s: LockStatus) -> Option<LockStatus> {
    if locked(s) {
        None
    } else {
        Some(s | LOCK_FLAG)
    }
}

/// The state a release leaves behind, where `panicked` tells whether the
/// holder panicked.
pub open spec fn released(s: LockStatus, panicked: bool) -> LockStatus {
    if panicked {
        (s & !LOCK_FLAG) | POISON_FLAG
    } else {
        s & !LOCK_FLAG
    }
}

proof fn lemma_status_bits(s: LockStatus)
    by (bit_vector)
    ensures
        (s | LOCK_FLAG) & LOCK_FLAG != 0,
        ((s | LOCK_FLAG) & POISON_FLAG != 0) == (s & POISON_FLAG != 0),
        (s & !LOCK_FLAG) & LOCK_FLAG == 0,
        ((s & !LOCK_FLAG) & POISON_FLAG != 0) == (s & POISON_FLAG != 0),
        (s | POISON_FLAG) & POISON_FLAG != 0,
        ((s | POISON_FLAG) & LOCK_FLAG != 0) == (s & LOCK_FLAG != 0),
        (s | POISON_FLAG) | POISON_FLAG == s | POISON_FLAG,
        s & LOCK_FLAG == 0 ==> (s | LOCK_FLAG) & !LOCK_FLAG == s,
        s & LOCK_FLAG != 0 ==> (s & !LOCK_FLAG) | LOCK_FLAG == s,
        ((s & !LOCK_FLAG) | POISON_FLAG) & LOCK_FLAG == 0,
        ((s & !LOCK_FLAG) | POISON_FLAG) & POISON_FLAG != 0,
        ((s | POISON_FLAG) & !LOCK_FLAG) == ((s & !LOCK_FLAG) | POISON_FLAG),
        (s & !LOCK_FLAG) & NOT_USED_MASK == s & NOT_USED_MASK,
        ((s & !LOCK_FLAG) | POISON_FLAG) & NOT_USED_MASK == s & NOT_USED_MASK,
{
}

/// Whether the state `s` is locked.
pub fn is_locked(s: LockStatus) -> (r: bool)
    ensures
        r == locked(s),
    opens_invariants none
    no_unwind
{
    (s & LOCK_FLAG) != 0
}

/// The state `s` with the lock flag set.
pub fn acquire_lock(s: LockStatus) -> (r: LockStatus)
    ensures
        r == s | LOCK_FLAG,
        locked(r),
        poisoned(r) == poisoned(s),
    opens_invariants none
    no_unwind
{
    proof {
        lemma_status_bits(s);
    }
    s | LOCK_FLAG
}

/// The state `s` with the lock flag cleared.
pub fn release_lock(s: LockStatus) -> (r: LockStatus)
    ensures
        r == s & !LOCK_FLAG,
        !locked(r),
        poisoned(r) == poisoned(s),
    opens_invariants none
    no_unwind
{
    proof {
        lemma_status_bits(s);
    }
    s & !LOCK_FLAG
}

/// Whether the state `s` is poisoned.
pub fn is_poisoned(s: LockStatus) -> (r: bool)
    ensures
        r == poisoned(s),
    opens_invariants none
    no_unwind
{
    (s & POISON_FLAG) != 0
}

/// The state `s` with the poison flag set.
pub fn set_poison_flag(s: LockStatus) -> (r: LockStatus)
    ensures
        r == s | POISON_FLAG,
        poisoned(r),
        locked(r) == locked(s),
    opens_invariants none
    no_unwind
{
    proof {
        lemma_status_bits(s);
    }
    s | POISON_FLAG
}

/// Reads the state word of `lock`, and whether it records a poisoning.
fn read_poison(lock: &AtomicU8) -> (r: (LockStatus, bool))
    ensures
        r.1 <==> r.0 & POISON_FLAG != 0,
{
    let s = load_u8(lock, Ordering::Relaxed);
    (s, is_poisoned(s))
}

/// One attempt to lock the state `s`: `None` where `s` is locked, else the
/// locked state to store in its place.
pub fn try_acquire(s: LockStatus) -> (r: Option<LockStatus>)
    ensures
        r == acquisition(s),
    opens_invariants none
    no_unwind
{
    if is_locked(s) {
        None
    } else {
        Some(acquire_lock(s))
    }
}

/// What an attempt to lock returns, given `found`, the state word it found
/// (`Ok` where the attempt locked it, `Err` where it was refused), and the
/// guard it made (`None` where it could not take the slot of the value):
/// `WouldBlock` where it was refused or has no guard, else the guard,
/// wrapped in `Poisoned` where the state found was poisoned.
pub fn lock_outcome<G>(found: Result<LockStatus, LockStatus>, guard: Option<G>) -> (r: TryLockResult<G>)
    ensures
        (found is Err || guard is None) ==> (r matches Err(TryLockError::WouldBlock)),
        (match (found, guard) {
            (Ok(s), Some(g)) => if poisoned(s) {
                r matches Err(TryLockError::Poisoned(e)) && e.inner() == g
            } else {
                r == Ok::<G, TryLockError<G>>(g)
            },
            _ => true,
        }),
{
    match (found, guard) {
        (Ok(s), Some(g)) => try_result(poison_result(g, is_poisoned(s))),
        _ => Err(TryLockError::WouldBlock),
    }
}

/// The state that the release of a guard stores, given the state `s` it
/// finds and whether the holder panicked.
pub fn release_status(s: LockStatus, panicked: bool) -> (r: LockStatus)
    ensures
        r == released(s, panicked),
    opens_invariants none
    no_unwind
{
    let r = release_lock(s);
    if panicked {
        set_poison_flag(r)
    } else {
        r
    }
}

/// A mutual exclusion lock that waits by spinning.
///
/// The protected value is reached only through the guards that `try_lock`
/// hands out (and the blocking `lock` built on it), so it is only ever
/// touched while the mutex is locked. A guard that is dropped while its
/// thread panics poisons the mutex; every later lock operation then reports
/// the poisoning, and still hands out the guard or the value. The panic is
/// learnt from the poison flag of the slot, which `std` sets only for a guard
/// taken before the thread began to unwind.
#[verifier::reject_recursive_types(T)]
#[derive(Debug)]
pub struct Mutex<T> {
    lock: AtomicU8,
    data: std::sync::Mutex<T>,
}

/// The exclusive access to the value of a `Mutex`, which ends when the guard
/// is dropped.
#[verifier::reject_recursive_types(T)]
#[derive(Debug)]
pub struct MutexGuard<'a, T> {
    // Declared first so that it is dropped before `release` runs.
    slot: std::sync::MutexGuard<'a, T>,
    release: MutexRelease<'a, T>,
    found: Observed<LockStatus>,
}

/// Releases the mutex when it is dropped, which is after the slot of its
/// guard has been given back.
#[verifier::reject_recursive_types(T)]
#[derive(Debug)]
struct MutexRelease<'a, T> {
    mutex: &'a Mutex<T>,
}

impl<T> Mutex<T> {
    /// Creates a mutex, unlocked and not poisoned, that protects `t`.
    pub fn new(t: T) -> Self {
        Mutex { lock: AtomicU8::new(INIT), data: mutex_slot_new(t) }
    }

    /// Consumes the mutex and returns its value, wrapped in an error where the
    /// mutex is poisoned. No lock is taken: nobody else can reach `self`.
    pub fn into_inner(self) -> LockResult<T> {
        let Mutex { lock, data } = self;
        let (_, poisoned) = read_poison(&lock);
        let value = match mutex_slot_into_inner(data) {
            Ok(v) => v,
            Err(e) => poison_into_inner(e),
        };
        poison_result(value, poisoned)
    }

    /// One attempt to lock: `Ok` with the state found, where this call locked
    /// it, else `Err` with the locked state found.
    fn do_try_lock(&self) -> (r: Result<Observed<LockStatus>, LockStatus>)
        ensures
            r matches Ok(s) ==> !locked(s.word()),
            r matches Err(s) ==> locked(s),
    {
        fetch_update_u8(&self.lock, Ordering::Acquire, Ordering::Acquire, ByteStep::LockMutex)
    }

    /// Takes the slot of the value, which nobody else holds while this
    /// mutex is locked by the caller.
    fn take_slot(&self) -> Option<std::sync::MutexGuard<'_, T>> {
        match mutex_slot_try_lock(&self.data) {
            SlotAttempt::Taken(g) => Some(g),
            SlotAttempt::Poisoned(e) => Some(poison_into_inner(e)),
            SlotAttempt::Busy => None,
        }
    }

    /// Attempts to lock the mutex without blocking.
    ///
    /// Returns `WouldBlock` where another guard holds the mutex; otherwise
    /// the guard, wrapped in `Poisoned` where a holder panicked.
    pub fn try_lock(&self) -> (r: TryLockResult<MutexGuard<'_, T>>)
        ensures
            r matches Ok(g) ==> g.mutex() == *self && !locked(g.found()) && !poisoned(g.found()),
            r matches Err(TryLockError::Poisoned(e)) ==> e.inner().mutex() == *self
                && !locked(e.inner().found()) && poisoned(e.inner().found()),
    {
        let found = self.do_try_lock();
        let word = match &found {
            Ok(s) => Ok(s.value()),
            Err(s) => Err(*s),
        };
        let guard = match found {
            Err(_) => None,
            Ok(s) => match self.take_slot() {
                Some(slot) => Some(MutexGuard::new(self, slot, s)),
                None => {
                    // The slot is only held under the lock, so this does not
                    // happen; give the lock back and report contention.
                    let _ = fetch_update_u8(&self.lock, Ordering::Release, Ordering::Relaxed, ByteStep::UnlockMutex);
                    None
                },
            },
        };
        lock_outcome(word, guard)
    }

    /// Whether the mutex is poisoned. No lock is taken, so another thread
    /// may poison it right after this returns `false`.
    pub fn is_poisoned(&self) -> bool {
        read_poison(&self.lock).1
    }

    /// Gives back the lock of a guard whose slot was just given back: reads
    /// the state word, learns from the slot whether the holder panicked, and
    /// stores the released word. Returns the word read, whether the holder
    /// panicked, and the word stored, which is unlocked, keeps the bits
    /// other than the two flags, and is poisoned exactly where the word read
    /// was or the holder panicked.
    fn release_held(&self) -> (r: (LockStatus, bool, LockStatus))
        ensures
            r.2 == released(r.0, r.1),
            !locked(r.2),
            poisoned(r.2) <==> (poisoned(r.0) || r.1),
            r.2 & NOT_USED_MASK == r.0 & NOT_USED_MASK,
        opens_invariants none
        no_unwind
    {
        let s = load_u8(&self.lock, Ordering::Relaxed);
        let panicked = mutex_slot_is_poisoned(&self.data);
        let stored = store_u8(&self.lock, release_status(s, panicked), Ordering::Release);
        proof {
            lemma_release_exact(s, panicked);
        }
        (s, panicked, stored)
    }

    /// A mutable reference to the value, wrapped in an error where the mutex
    /// is poisoned. No lock is taken: the caller has `self` to itself.
    pub fn get_mut(&mut self) -> LockResult<&mut T> {
        let poisoned = self.is_poisoned();
        let value = match mutex_slot_get_mut(&mut self.data) {
            Ok(v) => v,
            Err(e) => poison_into_inner(e),
        };
        poison_result(value, poisoned)
    }
}

impl<T> From<T> for Mutex<T> {
    /// A new mutex that protects `t`.
    fn from(t: T) -> Self {
        Mutex::new(t)
    }
}

impl<T> vstd::std_specs::convert::FromSpecImpl<T> for Mutex<T> {
    /// No claim is made of the mutex made: its state lives in atomics.
    open spec fn obeys_from_spec() -> bool {
        false
    }

    open spec fn from_spec(t: T) -> Self {
        vstd::pervasive::arbitrary()
    }
}

impl<T: Default> Default for Mutex<T> {
    /// A new mutex that protects the default value of `T`.
    fn default() -> Self {
        Mutex::new(T::default())
    }
}

impl<'a, T> MutexGuard<'a, T> {
    /// The mutex this guard holds.
    pub closed spec fn mutex(&self) -> Mutex<T> {
        *self.release.mutex
    }

    /// The state word that the lock operation which made this guard found
    /// and locked.
    pub closed spec fn found(&self) -> LockStatus {
        self.found.word()
    }

    fn new(mutex: &'a Mutex<T>, slot: std::sync::MutexGuard<'a, T>, found: Observed<LockStatus>) -> (g: Self)
        ensures
            g.mutex() == *mutex,
            g.found() == found.word(),
    {
        MutexGuard { slot, release: MutexRelease { mutex }, found }
    }
}

impl<'a, T> std::ops::Deref for MutexGuard<'a, T> {
    type Target = T;

    fn deref(&self) -> &T {
        mutex_slot_ref(&self.slot)
    }
}

impl<'a, T> std::ops::DerefMut for MutexGuard<'a, T> {
    fn deref_mut(&mut self) -> &mut T {
        mutex_slot_mut(&mut self.slot)
    }
}

impl<'a, T> Drop for MutexRelease<'a, T> {
    /// Unlocks the mutex, poisoning it where the holder panicked: the slot,
    /// given back just before, records that.
    fn drop(&mut self)
        opens_invariants none
        no_unwind
    {
        let _ = self.mutex.release_held();
    }
}

/// What a release does: it unlocks, keeps the bits other than the two flags,
/// and leaves the state poisoned exactly where it was poisoned before or the
/// holder panicked; so after a panicking holder every later lock reports the
/// poisoning.
pub proof fn lemma_release_exact(s: LockStatus, panicked: bool)
    ensures
        !locked(released(s, panicked)),
        poisoned(released(s, panicked)) <==> (poisoned(s) || panicked),
        released(s, panicked) & NOT_USED_MASK == s & NOT_USED_MASK,
        panicked ==> (acquisition(released(s, panicked)) matches Some(t) && poisoned(t)),
{
    lemma_status_bits(s);
    lemma_status_bits(released(s, panicked));
}

/// Lock and release undo each other: locking an unlocked state and then
/// releasing it without a panic gives the state back.
pub proof fn lemma_release_undoes_acquire(s: LockStatus)
    requires
        !locked(s),
    ensures
        acquisition(s) matches Some(t) && released(t, false) == s,
{
    lemma_status_bits(s);
}

/// At most one holder: a state that an attempt has locked refuses every
/// further attempt until it is released, and the release lets the next one in.
pub proof fn lemma_mutual_exclusion(s: LockStatus)
    ensures
        acquisition(s) matches Some(t) ==> acquisition(t) is None,
        locked(s) <==> acquisition(s) is None,
        forall|p: bool| #[trigger] acquisition(released(s, p)) is Some,
{
    lemma_status_bits(s);
    assert forall|p: bool| #[trigger] acquisition(released(s, p)) is Some by {
        lemma_status_bits(s);
    }
    if let Some(t) = acquisition(s) {
        lemma_status_bits(t);
    }
}

/// Poisoning is permanent and comes only from a panicking holder: locking
/// keeps the poison flag as it was, a release without a panic keeps it, and a
/// release after a panic sets it.
pub proof fn lemma_poison_is_sticky(s: LockStatus)
    ensures
        acquisition(s) matches Some(t) ==> poisoned(t) == poisoned(s),
        poisoned(released(s, false)) == poisoned(s),
        poisoned(released(s, true)),
        !locked(released(s, true)),
{
    lemma_status_bits(s);
}

} // verus!
