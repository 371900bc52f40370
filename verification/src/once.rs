//! The state of a one-time initialization.
use vstd::prelude::*;
use std::sync::atomic::AtomicU8;

verus! {

/// A synchronization primitive for a one-time global initialization, which
/// waits by spinning. Its state word is an `OnceState`.
#[derive(Debug)]
pub struct Once {
    state: AtomicU8,
}

impl Once {
    /// Creates a `Once` whose initialization has not started.
    pub fn new() -> Self {
        Once { state: AtomicU8::new(OnceState::default().state) }
    }
}

/// The state of a `Once`: whether its lock is held, whether its
/// initialization finished, and whether an initialization panicked.
#[derive(Debug)]
pub struct OnceState {
    state: u8,
}

proof fn lemma_once_bits(s: u8)
    by (bit_vector)
    ensures
        (s | 1) & 1 != 0 && (s | 1) & 2 == s & 2 && (s | 1) & 4 == s & 4,
        (s ^ 1) & 2 == s & 2 && (s ^ 1) & 4 == s & 4 && ((s ^ 1) & 1 != 0) == (s & 1 == 0),
        (s | 2) & 2 != 0 && (s | 2) & 1 == s & 1 && (s | 2) & 4 == s & 4,
        (s | 4) & 4 != 0 && (s | 4) & 1 == s & 1 && (s | 4) & 2 == s & 2,
        (s ^ 4) & 1 == s & 1 && (s ^ 4) & 2 == s & 2 && ((s ^ 4) & 4 != 0) == (s & 4 == 0),
        s & 1 == 0 ==> (s | 1) ^ 1 == s,
        s & 1 != 0 ==> (s ^ 1) | 1 == s,
        s & 4 == 0 ==> (s | 4) ^ 4 == s,
        (s ^ 1) ^ 1 == s,
        (s ^ 4) ^ 4 == s,
        s == 0 ==> s & 1 == 0 && s & 2 == 0 && s & 4 == 0,
{
}

impl OnceState {
    /// The state of a new `Once`.
    pub const INIT: u8 = 0;
    /// Set while the lock is held.
    pub const LOCK: u8 = 1;
    /// Set once the initialization finished.
    pub const FINISHED: u8 = 2;
    /// Set where an initialization panicked.
    pub const POISONED: u8 = 4;

    /// The state word.
    pub closed spec fn bits(&self) -> u8 {
        self.state
    }

    /// Whether the lock is held in the state word `s`.
    pub open spec fn lock_set(s: u8) -> bool {
        s & 1 != 0
    }

    /// Whether the initialization finished in the state word `s`.
    pub open spec fn finished_set(s: u8) -> bool {
        s & 2 != 0
    }

    /// Whether an initialization panicked in the state word `s`.
    pub open spec fn poison_set(s: u8) -> bool {
        s & 4 != 0
    }

    /// The state of a `Once` whose initialization has not started.
    #[must_use]
    pub fn default() -> (r: Self)
        ensures
            r.bits() == Self::INIT,
            !Self::lock_set(r.bits()) && !Self::finished_set(r.bits()) && !Self::poison_set(r.bits()),
    {
        proof {
            lemma_once_bits(0);
        }
        Self { state: Self::INIT }
    }

    /// The state whose word is `state`.
    #[must_use]
    pub fn new(state: u8) -> (r: Self)
        ensures
            r.bits() == state,
    {
        Self { state }
    }

    /// Whether the lock is held.
    #[must_use]
    pub fn locked(&self) -> (r: bool)
        ensures
            r == Self::lock_set(self.bits()),
    {
        (self.state & Self::LOCK) != 0
    }

    /// Whether the initialization finished.
    #[must_use]
    pub fn finished(&self) -> (r: bool)
        ensures
            r == Self::finished_set(self.bits()),
    {
        (self.state & Self::FINISHED) != 0
    }

    /// Whether an initialization panicked.
    #[must_use]
    pub fn poisoned(&self) -> (r: bool)
        ensures
            r == Self::poison_set(self.bits()),
    {
        (self.state & Self::POISONED) != 0
    }

    /// The state with the lock flag set; the other flags are kept.
    #[must_use]
    pub fn acquire_lock(&self) -> (r: Self)
        ensures
            r.bits() == self.bits() | Self::LOCK,
            Self::lock_set(r.bits()),
            Self::finished_set(r.bits()) == Self::finished_set(self.bits()),
            Self::poison_set(r.bits()) == Self::poison_set(self.bits()),
    {
        proof {
            lemma_once_bits(self.state);
        }
        Self::new(self.state | Self::LOCK)
    }

    /// The state with the lock flag flipped, which clears it where the lock
    /// is held; the other flags are kept.
    #[must_use]
    pub fn release_lock(&self) -> (r: Self)
        ensures
            r.bits() == self.bits() ^ Self::LOCK,
            Self::lock_set(r.bits()) == !Self::lock_set(self.bits()),
            Self::finished_set(r.bits()) == Self::finished_set(self.bits()),
            Self::poison_set(r.bits()) == Self::poison_set(self.bits()),
    {
        proof {
            lemma_once_bits(self.state);
        }
        Self::new(self.state ^ Self::LOCK)
    }

    /// The state with the finished flag set; the other flags are kept.
    #[must_use]
    pub fn finish(&self) -> (r: Self)
        ensures
            r.bits() == self.bits() | Self::FINISHED,
            Self::finished_set(r.bits()),
            Self::lock_set(r.bits()) == Self::lock_set(self.bits()),
            Self::poison_set(r.bits()) == Self::poison_set(self.bits()),
    {
        proof {
            lemma_once_bits(self.state);
        }
        Self::new(self.state | Self::FINISHED)
    }

    /// The state with the poison flag set; the other flags are kept.
    #[must_use]
    pub fn poison(&self) -> (r: Self)
        ensures
            r.bits() == self.bits() | Self::POISONED,
            Self::poison_set(r.bits()),
            Self::lock_set(r.bits()) == Self::lock_set(self.bits()),
            Self::finished_set(r.bits()) == Self::finished_set(self.bits()),
    {
        proof {
            lemma_once_bits(self.state);
        }
        Self::new(self.state | Self::POISONED)
    }

    /// The state with the poison flag flipped, which clears it where it is
    /// set; the other flags are kept.
    #[must_use]
    pub fn unpoison(&self) -> (r: Self)
        ensures
            r.bits() == self.bits() ^ Self::POISONED,
            Self::poison_set(r.bits()) == !Self::poison_set(self.bits()),
            Self::lock_set(r.bits()) == Self::lock_set(self.bits()),
            Self::finished_set(r.bits()) == Self::finished_set(self.bits()),
    {
        proof {
            lemma_once_bits(self.state);
        }
        Self::new(self.state ^ Self::POISONED)
    }
}

/// Taking the lock and releasing it give the state back, and so do
/// poisoning and unpoisoning: each transition undoes the other.
pub proof fn lemma_once_transitions_undo(s: u8)
    ensures
        !OnceState::lock_set(s) ==> (s | OnceState::LOCK) ^ OnceState::LOCK == s,
        OnceState::lock_set(s) ==> (s ^ OnceState::LOCK) | OnceState::LOCK == s,
        !OnceState::poison_set(s) ==> (s | OnceState::POISONED) ^ OnceState::POISONED == s,
        (s ^ OnceState::LOCK) ^ OnceState::LOCK == s,
        (s ^ OnceState::POISONED) ^ OnceState::POISONED == s,
{
    lemma_once_bits(s);
}

} // verus!
