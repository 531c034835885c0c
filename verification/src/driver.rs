//! The capability contract a network driver must implement.

use vstd::prelude::*;

verus! {

/// A remote address. Address formats are out of scope here: the value is an
/// opaque payload handed through to the driver unchanged.
#[derive(Clone, Copy, Debug)]
pub struct SocketAddr;

/// A driver-side failure. The only condition this layer itself produces is an
/// exhausted socket pool; connect failures are driver-defined and surfaced
/// verbatim.
#[derive(Clone, Copy, Debug, PartialEq, Eq, Structural)]
pub struct Error;

/// The contract any network driver implements: allocate a socket slot,
/// connect it to a remote address, and close it again.
///
/// The abstract state of a driver is described by three spec functions:
/// `avail` counts the slots that are currently allocatable, `live` says
/// whether an identifier names a slot that has been handed out by `socket`
/// and not yet passed to `close`, and `id_ok` delimits the identifiers the
/// driver is prepared to be handed back at all (for a pooled driver, the
/// in-range indices). `wf` is the driver's own internal invariant.
pub trait NalDriver: Sized {
    /// Opaque, copyable token naming one allocated slot of this driver.
    type SocketIdentifier: Copy;

    /// Internal well-formedness of the driver's allocation table.
    spec fn wf(&self) -> bool;

    /// The identifiers this driver accepts for `connect` and `close`.
    spec fn id_ok(id: Self::SocketIdentifier) -> bool;

    /// How many slots are currently allocatable.
    spec fn avail(&self) -> nat;

    /// Whether `id` names a slot that is allocated and not yet closed.
    spec fn live(&self, id: Self::SocketIdentifier) -> bool;

    /// Reserves one slot. Fails exactly when the pool is exhausted, and is
    /// side-effect-free on failure.
    fn socket(&mut self) -> (r: Result<Self::SocketIdentifier, Error>)
        requires
            old(self).wf(),
        ensures
            final(self).wf(),
            r is Ok <==> old(self).avail() > 0,
            r is Err ==> *final(self) == *old(self),
            r is Ok ==> Self::id_ok(r->Ok_0),
            r is Ok ==> final(self).live(r->Ok_0) && !old(self).live(r->Ok_0),
            r is Ok ==> final(self).avail() == old(self).avail() - 1,
            r is Ok ==> forall|i: Self::SocketIdentifier|
                i != r->Ok_0 ==> #[trigger] final(self).live(i) == old(self).live(i),
    ;

    /// Connects an allocated slot to `remote`. Whether this can fail is
    /// driver-defined; either way it does not change the allocation state.
    fn connect(&mut self, socket: Self::SocketIdentifier, remote: SocketAddr) -> (r: Result<
        (),
        Error,
    >)
        requires
            old(self).wf(),
            Self::id_ok(socket),
        ensures
            final(self).wf(),
            final(self).avail() == old(self).avail(),
            forall|i: Self::SocketIdentifier| #[trigger] final(self).live(i) == old(self).live(i),
    ;

    /// Releases the slot named by `socket` back to the allocatable pool.
    /// Infallible; closing a slot that is not live leaves the pool unchanged.
    fn close(&mut self, socket: Self::SocketIdentifier)
        requires
            old(self).wf(),
            Self::id_ok(socket),
        ensures
            final(self).wf(),
            !final(self).live(socket),
            forall|i: Self::SocketIdentifier|
                i != socket ==> #[trigger] final(self).live(i) == old(self).live(i),
            old(self).live(socket) ==> final(self).avail() == old(self).avail() + 1,
            !old(self).live(socket) ==> final(self).avail() == old(self).avail(),
    ;
}

} // verus!
