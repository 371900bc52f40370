use spin_sync::mutex8::{release_bits, try_acquire_bits};
use spin_sync::Mutex8;

#[test]
fn mutex8_try_lock_twice() {
    let mutex8 = Mutex8::new();

    // Try to acquire 0x01 twice. The second try will be fail.
    {
        let result1 = mutex8.try_lock(0x01);
        assert_eq!(true, result1.is_ok());

        let result2 = mutex8.try_lock(0x01);
        assert_eq!(true, result2.is_err());
    }

    // Try to acquire 0x01 and 0x02 at the same time.
    // After that, neither 0x01 nor 0x02 can be locked.
    {
        let result1 = mutex8.try_lock(0x03);
        assert_eq!(true, result1.is_ok());

        let result2 = mutex8.try_lock(0x01);
        assert_eq!(true, result2.is_err());

        let result3 = mutex8.try_lock(0x02);
        assert_eq!(true, result3.is_err());
    }
}

#[test]
fn mutex8_locked_bits() {
    let mutex8 = Mutex8::new();

    let guard1 = mutex8.try_lock(0x01).unwrap();
    assert_eq!(0x01, mutex8.locked_bits());

    let guard2 = mutex8.try_lock(0x02).unwrap();
    assert_eq!(0x03, mutex8.locked_bits());

    let mut guard3 = mutex8.try_lock(0x0c).unwrap();
    assert_eq!(0x0f, mutex8.locked_bits());

    guard3.release(0x08);
    assert_eq!(0x07, mutex8.locked_bits());

    drop(guard1);
    assert_eq!(0x06, mutex8.locked_bits());
    drop(guard2);
    drop(guard3);
    assert_eq!(0x00, mutex8.locked_bits());
}

#[test]
fn mutex8_partial_release() {
    let mutex8 = Mutex8::new();
    let mut guard = mutex8.try_lock(0x03).unwrap();

    assert!(mutex8.try_lock(0x01).is_err());
    assert!(mutex8.try_lock(0x02).is_err());

    guard.release(0x01);

    {
        let o = mutex8.try_lock(0x01);
        assert!(o.is_ok());

        let e = mutex8.try_lock(0x02);
        assert!(e.is_err());
    }
}

#[test]
fn mutex8_guard_lock_bits() {
    let mutex8 = Mutex8::new();
    let mut guard = mutex8.try_lock(0x03).unwrap();
    assert_eq!(0x03, guard.lock_bits());

    guard.release(0x02);
    assert_eq!(0x01, guard.lock_bits());

    guard.release(0x01);
    assert_eq!(0x00, guard.lock_bits());
    assert_eq!(0x00, mutex8.locked_bits());
}

#[test]
fn mutex8_zero_bits_always_succeed() {
    let mutex8 = Mutex8::new();
    let _all = mutex8.try_lock(0xff).unwrap();
    assert!(mutex8.try_lock(0x00).is_ok());
}

#[test]
fn mutex8_attempts_on_state_words() {
    assert_eq!(Some(0x05), try_acquire_bits(0x01, 0x04));
    assert_eq!(None, try_acquire_bits(0x05, 0x04));
    assert_eq!(Some(0xff), try_acquire_bits(0xf0, 0x0f));
    assert_eq!(Some(0x00), try_acquire_bits(0x00, 0x00));
}

#[test]
fn mutex8_drop_releases_exactly_its_bits() {
    let mutex8 = Mutex8::new();
    let g1 = mutex8.try_lock(0x01).unwrap();
    {
        let _g2 = mutex8.try_lock(0x0a).unwrap();
        assert_eq!(0x0b, mutex8.locked_bits());
    }
    assert_eq!(0x01, mutex8.locked_bits());
    assert!(mutex8.try_lock(0x0a).is_ok());
    drop(g1);
    let g3 = mutex8.try_lock(0x03).unwrap();
    assert_eq!(0x03, g3.lock_bits());
}

#[test]
fn mutex8_release_nothing_changes_nothing() {
    let mutex8 = Mutex8::new();
    let mut g = mutex8.try_lock(0x05).unwrap();
    g.release(0x00);
    assert_eq!(0x05, g.lock_bits());
    assert_eq!(0x05, mutex8.locked_bits());
}

#[test]
fn mutex8_release_bits_on_words() {
    assert_eq!(0x04, release_bits(0x07, 0x03));
    assert_eq!(0x07, release_bits(0x07, 0x00));
    assert_eq!(0x00, release_bits(0xff, 0xff));
}
