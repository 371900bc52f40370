# spin_sync

Synchronization primitives that wait by spinning — `Mutex`, `RwLock`,
`Mutex8`, `Once` and `Barrier` — with the poisoning strategy of `std::sync`,
written in Verus.

Each primitive keeps its state in one atomic word. What is verified is the
state machine on that word: its encoding, the transitions that acquire and
release it, the decision each attempt takes on the word it finds, and the laws
that relate them (a release undoes an acquisition, a locked word refuses
further requests, only a panicking writer poisons, a barrier generation has
exactly one leader and releases its followers).

- `src/mutex.rs`, `src/rwlock.rs`, `src/mutex8.rs`, `src/once.rs`,
  `src/barrier.rs`: the primitives, their state words and their laws.
- `src/result.rs`: `PoisonError`, `TryLockError` and the result types.
- `src/atomic.rs`: the atomic operations, whose results depend on other
  threads; their contracts say only what holds of every outcome. Every
  read-modify-write applies one of the verified transitions (`ByteStep`,
  `WordStep`, the barrier's lock attempt) to the word it finds.
- `src/slot.rs`: the `std::sync` slot that holds the protected value; the
  spin lock takes it only while its own word grants the access, so it is
  never contended, and its poison flag tells a release that the holder
  panicked.
- `app/lib.rs`: the blocking `lock`, `read`, `write` and `wait`, which repeat
  the library's non-blocking attempt and yield the thread in between.
