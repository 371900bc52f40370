use spin_sync::{Once, OnceState};

#[test]
fn once_state_flags() {
    let s = OnceState::default();
    assert!(!s.locked());
    assert!(!s.finished());
    assert!(!s.poisoned());

    let locked = s.acquire_lock();
    assert!(locked.locked());
    assert!(!locked.finished());

    let finished = locked.finish();
    assert!(finished.locked());
    assert!(finished.finished());

    let released = finished.release_lock();
    assert!(!released.locked());
    assert!(released.finished());

    let poisoned = released.poison();
    assert!(poisoned.poisoned());
    assert!(poisoned.finished());
    assert!(!poisoned.unpoison().poisoned());
}

#[test]
fn once_state_words() {
    assert_eq!(0, OnceState::INIT);
    assert!(OnceState::new(OnceState::LOCK | OnceState::POISONED).locked());
    assert!(OnceState::new(OnceState::LOCK | OnceState::POISONED).poisoned());
    assert!(!OnceState::new(OnceState::LOCK | OnceState::POISONED).finished());
    assert!(OnceState::new(OnceState::FINISHED).finished());
}

#[test]
fn once_new() {
    let _once = Once::new();
}
