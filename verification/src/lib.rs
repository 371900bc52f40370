//! Synchronization primitives that wait by spinning: `Mutex`, `RwLock`,
//! `Mutex8`, `Once` and `Barrier`, with the poisoning strategy of `std::sync`.
//!
//! Each lock keeps its state in one atomic word. The encoding of that word,
//! the transitions that acquire and release it, and the decisions taken on
//! the values read from it are verified functions with exact contracts (every
//! read-modify-write of a word applies one of them); the
//! laws that relate them (what a release undoes, which states refuse which
//! requests) are proof functions of the modules. The operations here never
//! block: each makes one attempt and reports what it found. Waiting is a
//! loop of such attempts.
mod atomic;
pub mod barrier;
pub mod mutex;
pub mod mutex8;
pub mod once;
pub mod result;
pub mod rwlock;
mod slot;

pub use crate::barrier::{Barrier, BarrierArrival, BarrierWaitResult};
pub use crate::mutex::{Mutex, MutexGuard};
pub use crate::mutex8::{Mutex8, Mutex8Guard};
pub use crate::once::{Once, OnceState};
pub use crate::result::{LockResult, PoisonError, TryLockError, TryLockResult};
pub use crate::rwlock::{RwLock, RwLockReadGuard, RwLockWriteGuard};
