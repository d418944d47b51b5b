use amqp_relay::messaging::ConcurrencyLimiter;

#[test]
fn fresh_pool_has_all_permits() {
    let limiter = ConcurrencyLimiter::new(3);
    assert_eq!(limiter.capacity(), 3);
    assert_eq!(limiter.in_use(), 0);
    assert_eq!(limiter.available(), 3);
}

#[test]
fn permits_run_out_at_capacity() {
    let mut limiter = ConcurrencyLimiter::new(2);
    assert!(limiter.try_acquire(10));
    assert!(limiter.try_acquire(11));
    assert!(!limiter.try_acquire(12));
    assert_eq!(limiter.in_use(), 2);
    assert_eq!(limiter.available(), 0);
}

#[test]
fn release_frees_one_permit() {
    let mut limiter = ConcurrencyLimiter::new(2);
    limiter.try_acquire(10);
    limiter.try_acquire(11);
    assert!(limiter.release(10));
    assert_eq!(limiter.in_use(), 1);
    assert!(limiter.try_acquire(12));
    assert!(!limiter.try_acquire(13));
}

#[test]
fn release_of_a_stranger_changes_nothing() {
    let mut limiter = ConcurrencyLimiter::new(2);
    limiter.try_acquire(10);
    assert!(!limiter.release(99));
    assert_eq!(limiter.in_use(), 1);
    assert_eq!(limiter.available(), 1);
}

#[test]
fn a_permit_is_released_once() {
    let mut limiter = ConcurrencyLimiter::new(2);
    limiter.try_acquire(10);
    assert!(limiter.release(10));
    assert!(!limiter.release(10));
    assert_eq!(limiter.in_use(), 0);
}

#[test]
fn same_tag_twice_holds_two_permits() {
    let mut limiter = ConcurrencyLimiter::new(3);
    assert!(limiter.try_acquire(7));
    assert!(limiter.try_acquire(7));
    assert_eq!(limiter.in_use(), 2);
    assert!(limiter.release(7));
    assert_eq!(limiter.in_use(), 1);
    assert!(limiter.release(7));
    assert!(!limiter.release(7));
}

#[test]
fn pool_without_permits_admits_nothing() {
    let mut limiter = ConcurrencyLimiter::new(0);
    assert!(!limiter.try_acquire(1));
    assert_eq!(limiter.in_use(), 0);
    assert_eq!(limiter.available(), 0);
}

#[test]
fn copy_is_independent() {
    let mut limiter = ConcurrencyLimiter::new(1);
    let copy = limiter.clone();
    limiter.try_acquire(1);
    assert_eq!(copy.in_use(), 0);
    assert_eq!(limiter.in_use(), 1);
}
