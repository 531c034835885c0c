//! The client stack and the scoped socket handles it allocates.

use crate::driver::Error;
use crate::driver::NalDriver;
use crate::driver::SocketAddr;
use crate::lock::DriverMutex;
use vstd::prelude::*;

verus! {

/// Façade that allocates socket handles from a guarded driver.
///
/// It holds only a copyable reference-like capability to the exclusively
/// guarded driver, never the driver itself, so it may be duplicated freely;
/// its one job is to perform a single exclusive allocation call and wrap the
/// returned identifier in a [`TcpSocketHandle`].
#[derive(Clone, Copy)]
pub struct TcpClientStack<M: DriverMutex> {
    driver: M,
}

impl<M: DriverMutex> TcpClientStack<M> {
    /// The exclusive-access capability this stack allocates through.
    pub closed spec fn mutex(&self) -> M {
        self.driver
    }

    /// A stack allocating from the guarded driver named by `driver`.
    pub fn new(driver: M) -> (s: Self)
        ensures
            s.mutex() == driver,
    {
        TcpClientStack { driver }
    }

    /// Allocates a new socket handle by one exclusive driver call.
    ///
    /// On success the handle owns the returned identifier and shares the
    /// same guarded driver as this stack; on failure the error propagates
    /// unchanged and nothing else happened.
    pub fn socket(&mut self) -> (r: Result<TcpSocketHandle<M>, Error>)
        ensures
            *final(self) == *old(self),
            r is Ok ==> (r->Ok_0).mutex() == old(self).mutex(),
            r is Ok ==> <M::Driver as NalDriver>::id_ok((r->Ok_0).id()),
    {
        match self.driver.socket() {
            Ok(id) => Ok(TcpSocketHandle { socket: id, driver: self.driver }),
            Err(e) => Err(e),
        }
    }
}

/// An owned, scoped resource representing one allocated socket slot.
///
/// A handle is created only by [`TcpClientStack::socket`]; it may be moved
/// but never copied, so the identifier it owns is used by at most one
/// caller at a time. Every mutating operation runs as one exclusive driver
/// call. [`TcpSocketHandle::release`] consumes the handle, so the slot is
/// given back at most once and the handle cannot be used afterwards.
pub struct TcpSocketHandle<M: DriverMutex> {
    socket: <M::Driver as NalDriver>::SocketIdentifier,
    driver: M,
}

impl<M: DriverMutex> TcpSocketHandle<M> {
    /// A handle only ever carries an identifier the driver handed out.
    #[verifier::type_invariant]
    closed spec fn inv(self) -> bool {
        <M::Driver as NalDriver>::id_ok(self.socket)
    }

    /// The exclusive-access capability this handle operates through.
    pub closed spec fn mutex(&self) -> M {
        self.driver
    }

    /// The socket identifier this handle owns.
    pub closed spec fn id(&self) -> <M::Driver as NalDriver>::SocketIdentifier {
        self.socket
    }

    /// Connects this handle's socket to `remote` by one exclusive driver
    /// call, handing the driver's answer back unchanged. The handle itself
    /// is untouched either way: the caller may retry, or release it.
    pub fn connect(&mut self, remote: SocketAddr) -> (r: Result<(), Error>)
        ensures
            *final(self) == *old(self),
    {
        proof {
            use_type_invariant(&*self);
        }
        self.driver.connect(self.socket, remote)
    }

    /// Releases this handle's socket slot back to the driver by one
    /// exclusive close call.
    ///
    /// Consuming the handle is what makes the release discipline airtight:
    /// the close call runs at most once per handle, and no connect call can
    /// ever follow it.
    pub fn release(self) {
        proof {
            use_type_invariant(&self);
        }
        self.driver.close(self.socket);
    }
}

} // verus!
