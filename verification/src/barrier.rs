//! A barrier that lets a fixed number of threads wait for each other.
use vstd::prelude::*;
use std::sync::atomic::AtomicUsize;
use std::sync::atomic::Ordering;
use crate::atomic::{fetch_update_usize, load_usize, store_usize};

verus! {

/// The most significant bit of the generation word, set while a thread holds
/// the barrier's internal lock; the other bits number the generation.
pub const MSB: usize = 1usize << (usize::BITS - 1);

/// Whether the generation word `g` records the internal lock held.
pub open spec fn generation_locked(g: usize) -> bool {
    g & MSB != 0
}

/// The generation number that the word `g` records.
pub open spec fn generation_of(g: usize) -> usize {
    g & !MSB
}

/// What an attempt to take the internal lock does to the generation word
/// `g` it finds: it is refused while the lock is held, and otherwise sets the
/// lock bit.
pub open spec fn lock_acquisition(g: usize) -> Option<usize> {
    if generation_locked(g) {
        None
    } else {
        Some(g | MSB)
    }
}

/// What one arrival does, given the count of threads that arrived before it
/// in this generation and the number `n` of threads the barrier waits for:
/// the new count, and whether this arrival is the leader that completes the
/// generation (and then resets the count).
pub open spec fn arrival(count: usize, n: usize) -> (usize, bool) {
    if count + 1 < n {
        ((count + 1) as usize, false)
    } else {
        (0, true)
    }
}

/// The generation word that the leader of generation `g` stores while it
/// still holds the internal lock.
pub open spec fn published(g: usize) -> usize {
    ((g + 1) as usize) | MSB
}

/// Whether a follower that arrived in generation `g` may go on, given the
/// generation word `current` it reads.
pub open spec fn released(current: usize, g: usize) -> bool {
    generation_of(current) != g
}

/// The generation after `g`, counted modulo the range of generations.
pub open spec fn successor(g: usize) -> int {
    (g + 1) % (MSB as int)
}

proof fn lemma_generation_bits(g: usize)
    by (bit_vector)
    ensures
        g < MSB ==> (((g + 1) as usize) | MSB) & !MSB == (if g + 1 < MSB { g + 1 } else { 0 }),
        MSB > 1,
        g & MSB == 0 ==> g + MSB == g | MSB,
        g & MSB == 0 ==> g < MSB,
        (g | MSB) & MSB != 0,
        (g | MSB) & !MSB == g & !MSB,
        g & MSB != 0 ==> g - MSB == g & !MSB,
        (g & !MSB) & MSB == 0,
        (g & !MSB) & !MSB == g & !MSB,
        g & MSB == 0 ==> g & !MSB == g,
        g < MSB ==> (((g + 1) as usize) | MSB) & !MSB != g,
{
}

/// A barrier that blocks each of `n` threads until all `n` have arrived,
/// then lets them all go on, and is ready for the next `n`.
#[derive(Debug)]
pub struct Barrier {
    num_threads: usize,
    count: AtomicUsize,
    // Its most significant bit is the internal lock flag.
    generation_id: AtomicUsize,
}

/// What waiting at a barrier returned: whether this thread was the leader,
/// the one arrival that completed its generation.
#[derive(Debug)]
pub struct BarrierWaitResult(bool);

/// One thread's arrival at a barrier.
#[derive(Debug)]
pub enum BarrierArrival {
    /// This arrival completed its generation; `found` threads had arrived
    /// in it before.
    Leader { found: usize },
    /// This arrival waits for the end of generation `generation`; `found`
    /// threads had arrived in it before.
    Follower { generation: usize, found: usize },
}

impl BarrierWaitResult {
    /// Whether the result is that of the leader.
    pub closed spec fn leader(&self) -> bool {
        self.0
    }

    /// Whether this thread was the leader of its generation.
    pub fn is_leader(&self) -> (r: bool)
        ensures
            r == self.leader(),
    {
        self.0
    }
}

/// One attempt to take the internal lock in the generation word `g`: `None`
/// while it is held, else the word to store in its place.
pub fn try_lock_generation(g: usize) -> (r: Option<usize>)
    ensures
        r == lock_acquisition(g),
{
    proof {
        lemma_generation_bits(g);
    }
    if (g & MSB) != 0 {
        None
    } else {
        Some(g + MSB)
    }
}

/// The count to store and whether this arrival leads, given the count it
/// finds and the number `n` of threads the barrier waits for.
pub fn arrive(count: usize, n: usize) -> (r: (usize, bool))
    ensures
        r == arrival(count, n),
{
    if count < usize::MAX && count + 1 < n {
        (count + 1, false)
    } else {
        (0, true)
    }
}

/// The generation word the leader stores for the generation `g` it ends.
pub fn publish_generation(g: usize) -> (r: usize)
    requires
        !generation_locked(g),
    ensures
        r == published(g),
        generation_locked(r),
{
    proof {
        lemma_generation_bits(g);
        lemma_generation_bits((g + 1) as usize);
    }
    (g + 1) | MSB
}

/// The generation word `g` with the internal lock bit cleared.
pub fn unlocked_generation(g: usize) -> (r: usize)
    ensures
        r == generation_of(g),
        generation_locked(g) ==> r == g - MSB,
        !generation_locked(r),
{
    proof {
        lemma_generation_bits(g);
    }
    g & !MSB
}

/// Whether a follower of generation `g` may go on, given the generation word
/// `current` it reads.
pub fn is_released(current: usize, g: usize) -> (r: bool)
    ensures
        r == released(current, g),
{
    unlocked_generation(current) != g
}

impl Barrier {
    /// Creates a barrier that waits for `n` threads.
    pub fn new(n: usize) -> (b: Self)
        ensures
            b.num_threads() == n,
    {
        Barrier { num_threads: n, count: AtomicUsize::new(0), generation_id: AtomicUsize::new(0) }
    }

    /// The number of threads the barrier waits for.
    pub closed spec fn num_threads(&self) -> usize {
        self.num_threads
    }

    /// Gives the internal lock back: reads the generation word and stores it
    /// with the lock bit cleared. Returns the word read and the word stored,
    /// which records the same generation, unlocked.
    fn unlock(&self) -> (r: (usize, usize))
        ensures
            !generation_locked(r.1),
            generation_of(r.1) == generation_of(r.0),
    {
        let current = load_usize(&self.generation_id, Ordering::Relaxed);
        let stored = store_usize(&self.generation_id, unlocked_generation(current), Ordering::Release);
        proof {
            lemma_generation_bits(current);
        }
        (current, stored)
    }

    /// Ends the generation `generation`, whose leader holds the internal
    /// lock: stores the word of the next generation, still locked. Returns the
    /// word stored, which releases every follower of `generation` and records
    /// its successor.
    fn end_generation(&self, generation: usize) -> (r: usize)
        requires
            !generation_locked(generation),
        ensures
            generation_locked(r),
            released(r, generation),
            generation_of(r) == successor(generation),
    {
        let stored = store_usize(&self.generation_id, publish_generation(generation), Ordering::Relaxed);
        proof {
            lemma_generation_advances(generation);
        }
        stored
    }

    /// One attempt to arrive at the barrier, which does not block: `None`
    /// where another thread holds the internal lock. Otherwise this thread is
    /// counted; it is the leader where it completes the generation, which it
    /// then ends, else a follower of the generation it found.
    pub fn try_arrive(&self) -> (r: Option<BarrierArrival>)
        ensures
            r matches Some(BarrierArrival::Leader { found }) ==> arrival(found, self.num_threads()).1,
            r matches Some(BarrierArrival::Follower { generation, found }) ==> !arrival(found, self.num_threads()).1
                && !generation_locked(generation),
            self.num_threads() <= 1 ==> !(r matches Some(BarrierArrival::Follower { .. })),
    {
        match fetch_update_usize(&self.generation_id, Ordering::Acquire, Ordering::Acquire) {
            Err(_) => None,
            Ok(found) => {
                let generation = found.value();
                let count = load_usize(&self.count, Ordering::Relaxed);
                let (next, leader) = arrive(count, self.num_threads);
                store_usize(&self.count, next, Ordering::Relaxed);
                if leader {
                    // The other threads see the generation change and go on;
                    // the next generation cannot start before the unlock.
                    let _ = self.end_generation(generation);
                    let _ = self.unlock();
                    Some(BarrierArrival::Leader { found: count })
                } else {
                    let _ = self.unlock();
                    Some(BarrierArrival::Follower { generation, found: count })
                }
            },
        }
    }

    /// Whether the thread that made `arrival` may go on: the leader always
    /// may; a follower once the generation it arrived in has ended.
    pub fn poll(&self, arrival: &BarrierArrival) -> (r: Option<BarrierWaitResult>)
        ensures
            *arrival is Leader ==> (r matches Some(w) && w.leader()),
            *arrival is Follower ==> (r matches Some(w) ==> !w.leader()),
    {
        match arrival {
            BarrierArrival::Leader { .. } => Some(BarrierWaitResult(true)),
            BarrierArrival::Follower { generation, .. } => {
                let current = load_usize(&self.generation_id, Ordering::Relaxed);
                if is_released(current, *generation) {
                    Some(BarrierWaitResult(false))
                } else {
                    None
                }
            },
        }
    }
}

/// A generation has exactly `n` arrivals: starting from a count of zero, each
/// arrival before the `n`-th adds one to the count and is a follower, and
/// the `n`-th (or the first, where `n` is 0 or 1) is the leader and resets
/// the count.
pub proof fn lemma_leader_is_last_arrival(count: usize, n: usize)
    requires
        count < n,
    ensures
        count + 1 < n ==> arrival(count, n) == ((count + 1) as usize, false),
        count + 1 == n ==> arrival(count, n) == (0usize, true),
        arrival(count, n).1 <==> count + 1 >= n,
        !arrival(count, n).1 ==> arrival(count, n).0 < n,
{
}

/// Every follower of a generation is released when its leader ends it, and
/// not before: the word the leader publishes, once unlocked, records another
/// generation, while the word a follower leaves behind, locked or not,
/// records its own.
pub proof fn lemma_followers_released(g: usize)
    requires
        !generation_locked(g),
    ensures
        released(published(g), g),
        released(generation_of(published(g)), g),
        !released(g, g),
        lock_acquisition(g) matches Some(t) && !released(t, g),
{
    lemma_generation_bits(g);
    lemma_generation_bits(published(g));
    lemma_generation_bits(g | MSB);
}

/// A leader moves its generation on by one, modulo the range of generations:
/// the word it publishes keeps the internal lock held, records the successor
/// of its generation, and releases every follower of that generation.
pub proof fn lemma_generation_advances(g: usize)
    requires
        !generation_locked(g),
    ensures
        generation_locked(published(g)),
        generation_of(published(g)) == successor(g),
        released(published(g), g),
        released(generation_of(published(g)), g),
{
    lemma_generation_bits(g);
    lemma_generation_bits((g + 1) as usize);
    lemma_generation_bits(published(g));
    lemma_followers_released(g);
    if g + 1 < MSB {
        vstd::arithmetic::div_mod::lemma_small_mod((g + 1) as nat, MSB as nat);
    } else {
        assert((MSB as int) % (MSB as int) == 0) by (nonlinear_arith)
            requires
                MSB > 1,
        ;
    }
}

/// At most one thread holds the internal lock: a word it locked refuses every
/// further attempt, and unlocking gives back the generation it found.
pub proof fn lemma_internal_lock_exclusive(g: usize)
    ensures
        lock_acquisition(g) matches Some(t) ==> (
            lock_acquisition(t) is None && generation_of(t) == g),
{
    lemma_generation_bits(g);
    lemma_generation_bits(g | MSB);
}

} // verus!
