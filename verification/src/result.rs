//! The error types of the lock operations.
use vstd::prelude::*;

verus! {

/// The error of a lock operation on a lock that was poisoned: a holder of its
/// exclusive access panicked. It carries what the operation would otherwise
/// have returned, so the caller may still use it.
#[derive(Debug)]
pub struct PoisonError<T> {
    guard: T,
}

/// The error of an attempt to lock that does not block.
#[derive(Debug)]
pub enum TryLockError<T> {
    /// The lock was acquired, but it is poisoned.
    Poisoned(PoisonError<T>),
    /// The lock could not be acquired without blocking.
    WouldBlock,
}

/// The result of a lock operation that may find its lock poisoned.
pub type LockResult<T> = Result<T, PoisonError<T>>;

/// The result of an attempt to lock that does not block.
pub type TryLockResult<T> = Result<T, TryLockError<T>>;

impl<T> PoisonError<T> {
    /// What the failed operation would have returned.
    pub closed spec fn inner(&self) -> T {
        self.guard
    }

    /// Wraps what a lock operation on a poisoned lock would have returned.
    pub fn new(guard: T) -> (e: Self)
        ensures
            e.inner() == guard,
    {
        PoisonError { guard }
    }

    /// Gives back what the failed operation would have returned.
    pub fn into_inner(self) -> (r: T)
        ensures
            r == self.inner(),
    {
        self.guard
    }

    /// Borrows what the failed operation would have returned.
    pub fn get_ref(&self) -> (r: &T)
        ensures
            *r == self.inner(),
    {
        &self.guard
    }

    /// Borrows mutably what the failed operation would have returned.
    pub fn get_mut(&mut self) -> (r: &mut T)
        ensures
            *r == old(self).inner(),
            final(self).inner() == *final(r),
    {
        &mut self.guard
    }
}

impl<T> From<PoisonError<T>> for TryLockError<T> {
    /// The error of a non-blocking attempt that obtained a poisoned lock.
    fn from(e: PoisonError<T>) -> (r: Self) {
        TryLockError::Poisoned(e)
    }
}

impl<T> vstd::std_specs::convert::FromSpecImpl<PoisonError<T>> for TryLockError<T> {
    open spec fn obeys_from_spec() -> bool {
        true
    }

    open spec fn from_spec(e: PoisonError<T>) -> Self {
        TryLockError::Poisoned(e)
    }
}

/// The result of a lock operation that obtained `guard`, on a lock whose
/// state was poisoned or not.
pub fn poison_result<G>(guard: G, poisoned: bool) -> (r: LockResult<G>)
    ensures
        !poisoned ==> r == Ok::<G, PoisonError<G>>(guard),
        poisoned ==> (r matches Err(e) && e.inner() == guard),
{
    if poisoned {
        Err(PoisonError::new(guard))
    } else {
        Ok(guard)
    }
}

/// The result of a non-blocking lock operation that obtained the lock and
/// then found it poisoned or not, as `r` says.
pub fn try_result<G>(r: LockResult<G>) -> (t: TryLockResult<G>)
    ensures
        r matches Ok(g) ==> t == Ok::<G, TryLockError<G>>(g),
        r matches Err(e) ==> (t matches Err(TryLockError::Poisoned(f)) && f == e),
{
    match r {
        Ok(g) => Ok(g),
        Err(e) => Err(TryLockError::Poisoned(e)),
    }
}

} // verus!
