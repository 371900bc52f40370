use spin_sync::rwlock::{
    acquire_exclusive_lock, acquire_shared_lock, count_shared_locks, is_locked,
    is_locked_exclusively, is_poisoned, release_exclusive_lock, release_shared_lock,
    release_write_status, set_poison_flag, try_acquire, try_release_shared, lock_outcome, Access, EXCLUSIVE_LOCK_FLAG, INIT,
    POISON_FLAG, SHARED_LOCK_MASK,
};
use spin_sync::{RwLock, TryLockError};

#[test]
fn try_many_times() {
    let lock = RwLock::new(0);

    // Try to write at first.
    {
        let mut guard0 = lock.try_write().unwrap();
        assert_eq!(0, *guard0);

        *guard0 += 1;
        assert_eq!(1, *guard0);

        let result1 = lock.try_read();
        assert!(result1.is_err());

        let result2 = lock.try_write();
        assert!(result2.is_err());

        let result3 = lock.try_read();
        assert!(result3.is_err());

        let result4 = lock.try_write();
        assert!(result4.is_err());
    }

    // Try to read at first.
    {
        let guard0 = lock.try_read().unwrap();
        assert_eq!(1, *guard0);

        let result1 = lock.try_write();
        assert!(result1.is_err());

        let guard2 = lock.try_read().unwrap();
        assert_eq!(1, *guard2);

        let result3 = lock.try_write();
        assert!(result3.is_err());

        let guard4 = lock.try_read().unwrap();
        assert_eq!(1, *guard4);

        let result5 = lock.try_write();
        assert!(result5.is_err());
    }
}

#[test]
fn flag_duplication() {
    assert_eq!(0, INIT & SHARED_LOCK_MASK);
    assert_eq!(0, INIT & EXCLUSIVE_LOCK_FLAG);
    assert_eq!(0, INIT & POISON_FLAG);
    assert_eq!(0, SHARED_LOCK_MASK & EXCLUSIVE_LOCK_FLAG);
    assert_eq!(0, SHARED_LOCK_MASK & POISON_FLAG);
    assert_eq!(0, EXCLUSIVE_LOCK_FLAG & POISON_FLAG);
}

#[test]
fn flag_uses_all_bits() {
    assert_eq!(
        std::u64::MAX,
        INIT | SHARED_LOCK_MASK | EXCLUSIVE_LOCK_FLAG | POISON_FLAG
    );
}

#[test]
fn rwlock_new_and_into_inner() {
    let lock = RwLock::new(5);
    assert!(!lock.is_poisoned());
    assert_eq!(5, lock.into_inner().unwrap());
}

#[test]
fn rwlock_readers_share() {
    let lock = RwLock::new(1);
    let guard1 = lock.try_read().unwrap();
    assert_eq!(1, *guard1);
    let guard2 = lock.try_read().unwrap();
    assert_eq!(1, *guard2);
    assert!(matches!(lock.try_write(), Err(TryLockError::WouldBlock)));
    drop(guard1);
    assert!(lock.try_write().is_err());
    drop(guard2);
    let mut guard = lock.try_write().unwrap();
    *guard += 1;
    assert_eq!(2, *guard);
    assert!(matches!(lock.try_read(), Err(TryLockError::WouldBlock)));
    drop(guard);
    assert_eq!(2, *lock.try_read().unwrap());
}

#[test]
fn rwlock_get_mut() {
    let mut lock = RwLock::new(0);
    *lock.get_mut().unwrap() = 10;
    assert_eq!(*lock.try_read().unwrap(), 10);
}

#[test]
fn rwlock_max_read_lock_count() {
    assert_eq!(0x3fffffffffffffff, RwLock::<u8>::MAX_READ_LOCK_COUNT);
}

#[test]
fn rwlock_state_word_transitions() {
    assert!(!is_locked(INIT));
    assert!(!is_locked(POISON_FLAG));
    assert!(is_poisoned(set_poison_flag(INIT)));
    assert_eq!(POISON_FLAG | 3, set_poison_flag(3));

    let s = acquire_shared_lock(INIT);
    assert_eq!(1, s);
    assert_eq!(1, count_shared_locks(s));
    assert!(is_locked(s));
    assert!(!is_locked_exclusively(s));
    assert_eq!(2, acquire_shared_lock(s));
    assert_eq!(INIT, release_shared_lock(s));
    assert_eq!(POISON_FLAG | 4, acquire_shared_lock(POISON_FLAG | 3));

    let w = acquire_exclusive_lock(POISON_FLAG);
    assert_eq!(POISON_FLAG | EXCLUSIVE_LOCK_FLAG, w);
    assert!(is_locked_exclusively(w));
    assert_eq!(0, count_shared_locks(w));
    assert_eq!(POISON_FLAG, release_exclusive_lock(w));

    assert_eq!(INIT, release_write_status(EXCLUSIVE_LOCK_FLAG, false));
    assert_eq!(POISON_FLAG, release_write_status(EXCLUSIVE_LOCK_FLAG, true));
}

#[test]
fn rwlock_attempts_on_state_words() {
    assert_eq!(Some(1), try_acquire(Access::Shared, INIT));
    assert_eq!(Some(6), try_acquire(Access::Shared, 5));
    assert_eq!(None, try_acquire(Access::Shared, EXCLUSIVE_LOCK_FLAG));
    assert_eq!(None, try_acquire(Access::Shared, SHARED_LOCK_MASK));
    assert_eq!(Some(EXCLUSIVE_LOCK_FLAG), try_acquire(Access::Exclusive, INIT));
    assert_eq!(
        Some(POISON_FLAG | EXCLUSIVE_LOCK_FLAG),
        try_acquire(Access::Exclusive, POISON_FLAG)
    );
    assert_eq!(None, try_acquire(Access::Exclusive, 1));
    assert_eq!(None, try_acquire(Access::Exclusive, EXCLUSIVE_LOCK_FLAG));
}

#[test]
fn rwlock_default_holds_default_value() {
    let lock: RwLock<String> = RwLock::default();
    assert_eq!("", *lock.try_read().unwrap());
}

#[test]
fn rwlock_release_undoes_acquire() {
    for s in [INIT, POISON_FLAG, 7, POISON_FLAG | 7] {
        assert_eq!(s, release_shared_lock(acquire_shared_lock(s)));
        assert!(!is_poisoned(s) || is_poisoned(acquire_shared_lock(s)));
    }
    for s in [INIT, POISON_FLAG] {
        assert_eq!(s, release_write_status(acquire_exclusive_lock(s), false));
        assert_eq!(None, try_acquire(Access::Shared, acquire_exclusive_lock(s)));
        assert_eq!(None, try_acquire(Access::Exclusive, acquire_exclusive_lock(s)));
    }
}

#[test]
fn rwlock_read_release_on_words() {
    assert_eq!(None, try_release_shared(INIT));
    assert_eq!(None, try_release_shared(POISON_FLAG));
    assert_eq!(Some(INIT), try_release_shared(1));
    assert_eq!(Some(POISON_FLAG | 2), try_release_shared(POISON_FLAG | 3));
}

#[test]
fn rwlock_readers_release_one_by_one() {
    let lock = RwLock::new(0);
    let g1 = lock.try_read().unwrap();
    let g2 = lock.try_read().unwrap();
    drop(g1);
    assert!(lock.try_write().is_err());
    drop(g2);
    assert!(!lock.is_poisoned());
    assert!(lock.try_write().is_ok());
}

#[test]
fn rwlock_from_value() {
    let lock = RwLock::from(7);
    assert_eq!(7, lock.into_inner().unwrap());
}

#[test]
fn rwlock_lock_outcome_on_words() {
    assert!(matches!(lock_outcome(Err(EXCLUSIVE_LOCK_FLAG), None::<u8>), Err(TryLockError::WouldBlock)));
    assert!(matches!(lock_outcome(Ok(3), None::<u8>), Err(TryLockError::WouldBlock)));
    assert!(matches!(lock_outcome(Ok(3), Some(4u8)), Ok(4)));
    match lock_outcome(Ok(POISON_FLAG | 3), Some(5u8)) {
        Err(TryLockError::Poisoned(e)) => assert_eq!(5, e.into_inner()),
        _ => panic!("expected a poisoned outcome"),
    }
}
