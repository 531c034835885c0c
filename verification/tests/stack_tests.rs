use nal_stack::DriverA;
use nal_stack::DriverB;
use nal_stack::DriverLock;
use nal_stack::POOL_SIZE;
use nal_stack::SocketAddr;
use nal_stack::TcpClientStack;

#[test]
fn stack_pool_exhaustion_and_recovery() {
    let cell = DriverLock::new(DriverA::new());
    let mut stack = TcpClientStack::new(&cell);
    let mut handles = Vec::new();
    for _ in 0..POOL_SIZE {
        handles.push(stack.socket().unwrap());
    }
    assert!(stack.socket().is_err());
    handles.pop().unwrap().release();
    let extra = stack.socket();
    assert!(extra.is_ok());
    extra.unwrap().release();
    for h in handles {
        h.release();
    }
}

#[test]
fn connect_independent_of_allocation_slot() {
    let cell = DriverLock::new(DriverA::new());
    let mut stack = TcpClientStack::new(&cell);
    let mut first = stack.socket().unwrap();
    let mut second = stack.socket().unwrap();
    assert!(first.connect(SocketAddr).is_ok());
    assert!(second.connect(SocketAddr).is_ok());
    // Releasing one handle leaves the other connectable until its own
    // release.
    first.release();
    assert!(second.connect(SocketAddr).is_ok());
    second.release();
}

#[test]
fn single_slot_contention_through_stack() {
    let cell = DriverLock::new(DriverB::new());
    let mut stack = TcpClientStack::new(&cell);
    let first = stack.socket().unwrap();
    assert!(stack.socket().is_err());
    first.release();
    let again = stack.socket();
    assert!(again.is_ok());
    again.unwrap().release();
}

#[test]
fn stack_is_freely_duplicable() {
    let cell = DriverLock::new(DriverB::new());
    let mut stack = TcpClientStack::new(&cell);
    let mut copy = stack;
    // Both stacks allocate from the same single-slot driver.
    let h = stack.socket().unwrap();
    assert!(copy.socket().is_err());
    h.release();
    let h2 = copy.socket().unwrap();
    assert!(stack.socket().is_err());
    h2.release();
}

#[test]
fn release_makes_slot_allocatable_repeatedly() {
    let cell = DriverLock::new(DriverB::new());
    let mut stack = TcpClientStack::new(&cell);
    for _ in 0..10 {
        let mut h = stack.socket().unwrap();
        assert!(h.connect(SocketAddr).is_ok());
        h.release();
    }
}

#[test]
fn connect_may_be_retried_on_one_handle() {
    let cell = DriverLock::new(DriverA::new());
    let mut stack = TcpClientStack::new(&cell);
    let mut h = stack.socket().unwrap();
    for _ in 0..3 {
        assert!(h.connect(SocketAddr).is_ok());
    }
    h.release();
}
