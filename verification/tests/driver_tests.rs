use nal_stack::DriverA;
use nal_stack::DriverB;
use nal_stack::Error;
use nal_stack::NalDriver;
use nal_stack::POOL_SIZE;
use nal_stack::SingleSocket;
use nal_stack::SocketAddr;
use nal_stack::exhaust_pool;
use nal_stack::single_slot_reuse;

#[test]
fn pool_exhaustion_and_recovery() {
    let mut d = DriverA::new();
    for i in 0..POOL_SIZE {
        assert_eq!(d.socket().unwrap(), i);
    }
    assert!(matches!(d.socket(), Err(Error)));
    d.close(0);
    assert_eq!(d.socket().unwrap(), 0);
}

#[test]
fn lowest_available_index_is_reused() {
    let mut d = DriverA::new();
    assert_eq!(d.socket().unwrap(), 0);
    assert_eq!(d.socket().unwrap(), 1);
    assert_eq!(d.socket().unwrap(), 2);
    d.close(1);
    assert_eq!(d.socket().unwrap(), 1);
    assert_eq!(d.socket().unwrap(), 3);
}

#[test]
fn connect_succeeds_on_allocated_slots() {
    let mut d = DriverA::new();
    let a = d.socket().unwrap();
    let b = d.socket().unwrap();
    assert!(d.connect(a, SocketAddr).is_ok());
    assert!(d.connect(b, SocketAddr).is_ok());
}

#[test]
fn single_slot_driver_contention() {
    let mut d = DriverB::new();
    let id = d.socket().unwrap();
    assert!(matches!(d.socket(), Err(Error)));
    assert!(d.connect(id, SocketAddr).is_ok());
    d.close(id);
    assert!(d.socket().is_ok());
}

#[test]
fn single_slot_reuse_many_rounds() {
    let mut d = DriverB::new();
    assert_eq!(single_slot_reuse(&mut d, 100, SocketAddr), 100);
    // The slot is allocatable again after the rounds are over.
    assert!(d.socket().is_ok());
}

#[test]
fn single_slot_reuse_by_hand() {
    let mut d = DriverB::new();
    for _ in 0..10 {
        let id = d.socket().unwrap();
        assert!(d.connect(id, SocketAddr).is_ok());
        d.close(SingleSocket);
    }
}

#[test]
fn close_of_stale_index_keeps_other_slots() {
    let mut d = DriverA::new();
    let a = d.socket().unwrap();
    // Closing a never-allocated slot silently succeeds in the reference
    // driver; the slots handed out before stay allocated.
    d.close(5);
    assert_eq!(a, 0);
    assert_eq!(d.socket().unwrap(), 1);
}

#[test]
fn exhaust_pool_hands_out_every_index_once() {
    let mut d = DriverA::new();
    let ids = exhaust_pool(&mut d);
    let expected: Vec<usize> = (0..POOL_SIZE).collect();
    assert_eq!(ids, expected);
    assert!(d.socket().is_err());
}

#[test]
fn error_values_are_equal() {
    assert_eq!(Error, Error);
}
