use tcp_server::admission::AdmissionPool;

#[test]
fn pool_grants_up_to_capacity_only() {
    let mut pool = AdmissionPool::new(3);
    assert!(pool.try_acquire());
    assert!(pool.try_acquire());
    assert!(pool.try_acquire());
    assert!(!pool.try_acquire());
    assert_eq!(pool.permits_available(), 0);
}

#[test]
fn release_restores_availability_baseline() {
    let mut pool = AdmissionPool::new(2);
    assert_eq!(pool.permits_available(), 2);
    assert!(pool.try_acquire());
    assert_eq!(pool.permits_available(), 1);
    pool.release();
    assert_eq!(pool.permits_available(), 2);
}

#[test]
fn zero_capacity_pool_admits_nobody() {
    let mut pool = AdmissionPool::new(0);
    assert!(!pool.try_acquire());
    assert_eq!(pool.permits_available(), 0);
}

#[test]
fn released_permit_can_be_granted_again() {
    let mut pool = AdmissionPool::new(1);
    assert!(pool.try_acquire());
    assert!(!pool.try_acquire());
    pool.release();
    assert!(pool.try_acquire());
}
