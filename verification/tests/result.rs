use spin_sync::result::{poison_result, try_result};
use spin_sync::{PoisonError, TryLockError};

#[test]
fn poison_error_gives_back_its_value() {
    let mut e = PoisonError::new(3);
    assert_eq!(3, *e.get_ref());
    *e.get_mut() = 4;
    assert_eq!(4, e.into_inner());
}

#[test]
fn poison_result_follows_the_flag() {
    assert_eq!(Some(1), poison_result(1, false).ok());
    assert_eq!(2, poison_result(2, true).unwrap_err().into_inner());
    assert!(matches!(try_result(poison_result(5, false)), Ok(5)));
    match try_result(poison_result(6, true)) {
        Err(TryLockError::Poisoned(e)) => assert_eq!(6, e.into_inner()),
        _ => panic!("expected a poisoned result"),
    }
}

#[test]
fn try_lock_error_from_poison_error() {
    let e: TryLockError<u8> = TryLockError::from(PoisonError::new(9));
    match e {
        TryLockError::Poisoned(p) => assert_eq!(9, p.into_inner()),
        TryLockError::WouldBlock => panic!("expected a poisoned error"),
    }
}
