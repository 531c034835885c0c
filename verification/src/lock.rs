//! The exclusive-access primitive that guards the one shared driver.

use crate::driver::Error;
use crate::driver::NalDriver;
use crate::driver::SocketAddr;
use vstd::prelude::*;
use vstd::rwlock::RwLock;
use vstd::rwlock::RwLockPredicate;

verus! {

/// Lock invariant: whatever driver value rests in the lock is well-formed.
pub struct DriverInv;

impl<D: NalDriver> RwLockPredicate<D> for DriverInv {
    open spec fn inv(self, d: D) -> bool {
        d.wf()
    }
}

/// The capability of running one driver operation under exclusive access.
///
/// Each method acquires access, performs a single driver call, and releases
/// access again in one atomic step, so that no two invocations — across any
/// number of stacks and handles sharing the same guarded driver — ever
/// interleave their effects on driver state. A value of this capability is
/// freely copyable: it names the guarded driver, it does not own it.
pub trait DriverMutex: Copy {
    /// The driver type this primitive guards.
    type Driver: NalDriver;

    /// Allocate one socket slot under exclusive access.
    fn socket(&self) -> (r: Result<<Self::Driver as NalDriver>::SocketIdentifier, Error>)
        ensures
            r is Ok ==> <Self::Driver as NalDriver>::id_ok(r->Ok_0),
    ;

    /// Connect a socket slot under exclusive access.
    fn connect(
        &self,
        socket: <Self::Driver as NalDriver>::SocketIdentifier,
        remote: SocketAddr,
    ) -> (r: Result<(), Error>)
        requires
            <Self::Driver as NalDriver>::id_ok(socket),
    ;

    /// Release a socket slot under exclusive access.
    fn close(&self, socket: <Self::Driver as NalDriver>::SocketIdentifier)
        requires
            <Self::Driver as NalDriver>::id_ok(socket),
    ;
}

/// A blocking mutual-exclusion lock around one driver instance. Shared
/// references to it implement [`DriverMutex`]; the lock itself is owned by
/// whichever context constructs the whole stack.
pub struct DriverLock<D: NalDriver> {
    lock: RwLock<D, DriverInv>,
}

impl<D: NalDriver> DriverLock<D> {
    /// Wraps a well-formed driver so that it can only be reached through
    /// exclusive sections.
    pub fn new(driver: D) -> (s: Self)
        requires
            driver.wf(),
    {
        DriverLock { lock: RwLock::new(driver, Ghost(DriverInv)) }
    }
}

impl<'a, D: NalDriver> DriverMutex for &'a DriverLock<D> {
    type Driver = D;

    fn socket(&self) -> (r: Result<D::SocketIdentifier, Error>) {
        let (mut d, handle) = self.lock.acquire_write();
        let r = d.socket();
        handle.release_write(d);
        r
    }

    fn connect(&self, socket: D::SocketIdentifier, remote: SocketAddr) -> (r: Result<(), Error>) {
        let (mut d, handle) = self.lock.acquire_write();
        let r = d.connect(socket, remote);
        handle.release_write(d);
        r
    }

    fn close(&self, socket: D::SocketIdentifier) {
        let (mut d, handle) = self.lock.acquire_write();
        d.close(socket);
        handle.release_write(d);
    }
}

} // verus!
