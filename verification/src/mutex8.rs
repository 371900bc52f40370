//! A set of eight mutexes in one byte, without poisoning.
use vstd::prelude::*;
use std::marker::PhantomData;
use std::sync::atomic::AtomicU8;
use std::sync::atomic::Ordering;
use crate::atomic::{ByteStep, Observed, fetch_update_u8, load_u8};
use crate::result::{TryLockError, TryLockResult};

verus! {

/// What an attempt to take the locks `bits` does to the state `s` it finds:
/// it is refused where one of them is held, and otherwise adds them.
pub open spec fn bits_acquisition(s: u8, bits: u8) -> Option<u8> {
    if s & bits == 0 {
        Some(s | bits)
    } else {
        None
    }
}

/// The state the release of the locks `bits` leaves behind.
pub open spec fn bits_released(s: u8, bits: u8) -> u8 {
    s & !bits
}

proof fn lemma_bits(s: u8, b: u8, c: u8)
    by (bit_vector)
    ensures
        s & b == 0 ==> s + b == s | b && s + b <= 255,
        b & s == b ==> s - b == s & !b && s >= b,
        s & b == 0 ==> (s | b) & !b == s,
        s & b == 0 && (s | b) & c == 0 ==> b & c == 0,
        (s | b) & b == b,
        b & b == b,
        b == 0 ==> s & b == 0,
        (s & !b) & b == 0,
        (s & !b) & !b == s & !b,
        (s & !b) & c == (s & c) & !b,
        c & b == 0 ==> ((s | b) & c) == s & c,
        c & b == 0 ==> ((s & !b) & c) == s & c,
        c & !b == 0 ==> (s & !b) & c == 0,
{
}

/// A set of eight mutexes, one for each bit of a byte.
///
/// Unlike `Mutex`, it protects no value: the caller decides what each lock
/// stands for. It does not poison. Several of its locks can be taken at once.
#[derive(Debug)]
pub struct Mutex8 {
    bits: AtomicU8,
}

/// The locks of a `Mutex8` that one holder has taken. They are released
/// when the guard is dropped, or earlier with `release`.
#[derive(Debug)]
pub struct Mutex8Guard<'a> {
    bits: u8,
    mutex8: &'a Mutex8,
    found: Observed<u8>,
    // Like the guards of `std::sync`, a guard stays on the thread that took it.
    not_send: PhantomData<std::sync::MutexGuard<'a, u8>>,
}

impl Mutex8 {
    /// Creates the set, with no lock held.
    pub fn new() -> Self {
        Mutex8 { bits: AtomicU8::new(0) }
    }

    /// Attempts to take, without blocking and all at once, the locks whose
    /// bits are set in `lock_bits`.
    ///
    /// Returns `WouldBlock` where another holder has one of them; the error is
    /// never `Poisoned`. A request for no lock at all is always granted.
    pub fn try_lock(&self, lock_bits: u8) -> (r: TryLockResult<Mutex8Guard<'_>>)
        ensures
            r matches Ok(g) ==> g.held() == lock_bits && g.mutex8() == *self
                && bits_acquisition(g.found(), lock_bits) is Some,
            !(r matches Err(TryLockError::Poisoned(_))),
            lock_bits == 0 ==> r is Ok,
    {
        match fetch_update_u8(&self.bits, Ordering::Acquire, Ordering::Acquire, ByteStep::LockBits(lock_bits)) {
            Ok(s) => Ok(Mutex8Guard { bits: lock_bits, mutex8: self, found: s, not_send: PhantomData }),
            Err(s) => {
                proof {
                    // Every state grants the empty set of locks.
                    lemma_bits(s, lock_bits, 0);
                }
                Err(TryLockError::WouldBlock)
            },
        }
    }

    /// The bits of the locks that some guard holds. No lock is taken, so the
    /// answer may be out of date as soon as it is returned.
    pub fn locked_bits(&self) -> u8 {
        load_u8(&self.bits, Ordering::Relaxed)
    }
}

/// One attempt to take the locks `bits` in the state `s`: `None` where one
/// of them is held, else the state to store in its place.
pub fn try_acquire_bits(s: u8, bits: u8) -> (r: Option<u8>)
    ensures
        r == bits_acquisition(s, bits),
    opens_invariants none
    no_unwind
{
    proof {
        lemma_bits(s, bits, 0);
    }
    if s & bits == 0 {
        Some(s + bits)
    } else {
        None
    }
}

/// The state `s` with the locks `bits` released.
pub fn release_bits(s: u8, bits: u8) -> (r: u8)
    ensures
        r == bits_released(s, bits),
        bits & s == bits ==> r == s - bits,
    opens_invariants none
    no_unwind
{
    proof {
        lemma_bits(s, bits, 0);
    }
    s & !bits
}

impl<'a> Mutex8Guard<'a> {
    /// The bits of the locks this guard holds.
    pub closed spec fn held(&self) -> u8 {
        self.bits
    }

    /// The state word that the `try_lock` which made this guard found.
    pub closed spec fn found(&self) -> u8 {
        self.found.word()
    }

    /// The set this guard holds locks of.
    pub closed spec fn mutex8(&self) -> Mutex8 {
        *self.mutex8
    }

    /// Releases the locks whose bits are set in `lock_bits`, all of which
    /// this guard must hold; it keeps holding the others.
    pub fn release(&mut self, lock_bits: u8)
        requires
            lock_bits & old(self).held() == lock_bits,
        ensures
            final(self).held() == bits_released(old(self).held(), lock_bits),
            final(self).held() == old(self).held() - lock_bits,
            final(self).mutex8() == old(self).mutex8(),
            final(self).found() == old(self).found(),
        opens_invariants none
        no_unwind
    {
        proof {
            lemma_bits(self.bits, lock_bits, 0);
        }
        let _ = fetch_update_u8(&self.mutex8.bits, Ordering::Release, Ordering::Relaxed, ByteStep::ReleaseBits(lock_bits));
        self.bits = self.bits - lock_bits;
    }

    /// The bits of the locks this guard holds.
    pub fn lock_bits(&self) -> (r: u8)
        ensures
            r == self.held(),
    {
        self.bits
    }
}

impl<'a> Drop for Mutex8Guard<'a> {
    /// Releases every lock the guard still holds.
    fn drop(&mut self)
        opens_invariants none
        no_unwind
    {
        if self.bits != 0 {
            let bits = self.bits;
            proof {
                lemma_bits(0, bits, 0);
            }
            self.release(bits);
        }
    }
}

/// A lock is held by one holder at a time: after the locks `b` are taken
/// from the state `s`, a request for locks `c` is granted only where `c`
/// shares no lock with `b`, and it leaves the locks outside `c` as they were.
pub proof fn lemma_bit_locks_exclusive(s: u8, b: u8, c: u8)
    ensures
        bits_acquisition(s, b) matches Some(t) ==> (
            bits_acquisition(t, c) is Some ==> b & c == 0),
        bits_acquisition(s, c) matches Some(t) ==> (
            forall|d: u8| d & c == 0 ==> #[trigger] (t & d) == s & d),
{
    lemma_bits(s, b, c);
    if let Some(t) = bits_acquisition(s, c) {
        assert forall|d: u8| d & c == 0 implies #[trigger] (t & d) == s & d by {
            lemma_bits(s, c, d);
        }
    }
}

/// Taking locks and releasing them gives the state back; a release clears
/// exactly the released bits and leaves the others as they were, so that a
/// request for released locks is granted again.
pub proof fn lemma_bit_release_undoes_acquire(s: u8, b: u8, c: u8)
    ensures
        bits_acquisition(s, b) matches Some(t) ==> bits_released(t, b) == s,
        bits_released(s, b) & b == 0,
        c & b == 0 ==> bits_released(s, b) & c == s & c,
        c & !b == 0 ==> bits_acquisition(bits_released(s, b), c) is Some,
{
    lemma_bits(s, b, c);
}

} // verus!
