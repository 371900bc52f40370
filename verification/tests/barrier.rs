use spin_sync::barrier::{arrive, is_released, publish_generation, try_lock_generation, unlocked_generation, MSB};
use spin_sync::{Barrier, BarrierArrival};

#[test]
fn barrier_of_one_leads_at_once() {
    let barrier = Barrier::new(1);
    for _ in 0..3 {
        let arrival = barrier.try_arrive().unwrap();
        assert!(matches!(arrival, BarrierArrival::Leader { .. }));
        assert!(barrier.poll(&arrival).unwrap().is_leader());
    }
}

#[test]
fn barrier_of_three_releases_on_third_arrival() {
    let barrier = Barrier::new(3);
    let first = barrier.try_arrive().unwrap();
    let second = barrier.try_arrive().unwrap();
    assert!(matches!(first, BarrierArrival::Follower { generation: 0, found: 0 }));
    assert!(matches!(second, BarrierArrival::Follower { generation: 0, found: 1 }));
    assert!(barrier.poll(&first).is_none());
    assert!(barrier.poll(&second).is_none());

    let third = barrier.try_arrive().unwrap();
    assert!(matches!(third, BarrierArrival::Leader { found: 2 }));
    assert!(barrier.poll(&third).unwrap().is_leader());
    assert!(!barrier.poll(&first).unwrap().is_leader());
    assert!(!barrier.poll(&second).unwrap().is_leader());

    // The barrier is ready for the next generation.
    let next = barrier.try_arrive().unwrap();
    assert!(matches!(next, BarrierArrival::Follower { generation: 1, found: 0 }));
    assert!(barrier.poll(&next).is_none());
}

#[test]
fn barrier_arrival_counts() {
    assert_eq!((1, false), arrive(0, 3));
    assert_eq!((2, false), arrive(1, 3));
    assert_eq!((0, true), arrive(2, 3));
    assert_eq!((0, true), arrive(0, 0));
    assert_eq!((0, true), arrive(0, 1));
    assert_eq!((0, true), arrive(usize::MAX, usize::MAX));
}

#[test]
fn barrier_generation_words() {
    assert_eq!(usize::MAX / 2 + 1, MSB);
    assert_eq!(Some(MSB), try_lock_generation(0));
    assert_eq!(Some(MSB | 7), try_lock_generation(7));
    assert_eq!(None, try_lock_generation(MSB | 7));
    assert_eq!(MSB | 8, publish_generation(7));
    assert_eq!(MSB, publish_generation(MSB - 1));
    assert_eq!(8, unlocked_generation(MSB | 8));
    assert_eq!(0, unlocked_generation(publish_generation(MSB - 1)));
    assert!(!is_released(7, 7));
    assert!(!is_released(MSB | 7, 7));
    assert!(is_released(8, 7));
    assert!(is_released(MSB | 8, 7));
}

#[test]
fn barrier_of_zero_leads_at_once() {
    let barrier = Barrier::new(0);
    let arrival = barrier.try_arrive().unwrap();
    assert!(matches!(arrival, BarrierArrival::Leader { found: 0 }));
}
