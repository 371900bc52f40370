use spin_sync::mutex::{
    acquire_lock, is_locked, is_poisoned, lock_outcome, release_lock, release_status, set_poison_flag,
    try_acquire, INIT, LOCK_FLAG, NOT_USED_MASK, POISON_FLAG,
};
use spin_sync::{Mutex, TryLockError};

#[test]
fn mutex_new_and_into_inner() {
    let mutex = Mutex::new(0);
    assert_eq!(0, mutex.into_inner().unwrap());
}

#[test]
fn mutex_try_lock_fails_while_held() {
    let mutex = Mutex::new(0);

    {
        let _guard = mutex.try_lock().unwrap();
        assert_eq!(true, mutex.try_lock().is_err());
        assert!(matches!(mutex.try_lock(), Err(TryLockError::WouldBlock)));
    }

    {
        let mut guard = mutex.try_lock().unwrap();
        assert_eq!(true, mutex.try_lock().is_err());
        *guard += 1;
    }

    let guard = mutex.try_lock().unwrap();
    assert_eq!(1, *guard);
}

#[test]
fn mutex_get_mut() {
    let mut mutex = Mutex::new(0);
    *mutex.get_mut().unwrap() = 10;
    assert_eq!(10, *mutex.try_lock().unwrap());
}

#[test]
fn mutex_not_poisoned_without_panic() {
    let mutex = Mutex::new(String::from("a"));
    assert_eq!(false, mutex.is_poisoned());
    {
        let mut guard = mutex.try_lock().unwrap();
        guard.push('b');
    }
    assert_eq!(false, mutex.is_poisoned());
    assert_eq!("ab", mutex.into_inner().unwrap());
}

#[test]
fn mutex_state_word_transitions() {
    assert_eq!(0, INIT);
    assert_eq!(0, LOCK_FLAG & POISON_FLAG);
    assert_eq!(0, (LOCK_FLAG | POISON_FLAG) & NOT_USED_MASK);
    assert!(!is_locked(INIT));
    assert!(!is_poisoned(INIT));
    assert_eq!(LOCK_FLAG, acquire_lock(INIT));
    assert!(is_locked(acquire_lock(POISON_FLAG)));
    assert!(is_poisoned(acquire_lock(POISON_FLAG)));
    assert_eq!(INIT, release_lock(LOCK_FLAG));
    assert_eq!(POISON_FLAG, release_lock(LOCK_FLAG | POISON_FLAG));
    assert_eq!(POISON_FLAG | LOCK_FLAG, set_poison_flag(LOCK_FLAG));
    assert_eq!(INIT, release_status(LOCK_FLAG, false));
    assert_eq!(POISON_FLAG, release_status(LOCK_FLAG, true));
    assert_eq!(POISON_FLAG, release_status(LOCK_FLAG | POISON_FLAG, false));
}

#[test]
fn mutex_attempts_on_state_words() {
    assert_eq!(Some(LOCK_FLAG), try_acquire(INIT));
    assert_eq!(Some(LOCK_FLAG | POISON_FLAG), try_acquire(POISON_FLAG));
    assert_eq!(None, try_acquire(LOCK_FLAG));
    assert_eq!(None, try_acquire(LOCK_FLAG | POISON_FLAG));
}

#[test]
fn mutex_default_holds_default_value() {
    let mutex: Mutex<u32> = Mutex::default();
    assert_eq!(0, *mutex.try_lock().unwrap());
}

#[test]
fn mutex_release_undoes_acquire() {
    for s in [INIT, POISON_FLAG] {
        assert_eq!(s, release_status(acquire_lock(s), false));
        assert_eq!(None, try_acquire(acquire_lock(s)));
        assert!(is_poisoned(release_status(acquire_lock(s), true)));
    }
}

#[test]
fn mutex_from_value() {
    let mutex = Mutex::from(String::from("x"));
    assert_eq!("x", mutex.into_inner().unwrap());
}

#[test]
fn mutex_lock_outcome_on_words() {
    assert!(matches!(lock_outcome(Err(LOCK_FLAG), None::<u8>), Err(TryLockError::WouldBlock)));
    assert!(matches!(lock_outcome(Ok(INIT), None::<u8>), Err(TryLockError::WouldBlock)));
    assert!(matches!(lock_outcome(Ok(INIT), Some(4u8)), Ok(4)));
    match lock_outcome(Ok(POISON_FLAG), Some(5u8)) {
        Err(TryLockError::Poisoned(e)) => assert_eq!(5, e.into_inner()),
        _ => panic!("expected a poisoned outcome"),
    }
}
