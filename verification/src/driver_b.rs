//! Reference driver with a single socket slot.

use crate::driver::Error;
use crate::driver::NalDriver;
use crate::driver::SocketAddr;
use vstd::prelude::*;

verus! {

/// The identifier of the single slot: a unit-like token carrying no data.
#[derive(Clone, Copy, Debug)]
pub struct SingleSocket;

/// A network driver that supports a single socket, modeled as one boolean:
/// allocation flips it to unavailable, close flips it back.
pub struct DriverB {
    socket_available: bool,
}

impl DriverB {
    /// A fresh driver whose one slot is allocatable.
    pub fn new() -> (d: Self)
        ensures
            d.wf(),
            d.avail() == 1,
            !d.live(SingleSocket),
    {
        DriverB { socket_available: true }
    }
}

impl NalDriver for DriverB {
    /// The single slot needs no name beyond a unit-like token.
    type SocketIdentifier = SingleSocket;

    open spec fn wf(&self) -> bool {
        true
    }

    open spec fn id_ok(id: SingleSocket) -> bool {
        true
    }

    closed spec fn avail(&self) -> nat {
        if self.socket_available {
            1
        } else {
            0
        }
    }

    closed spec fn live(&self, id: SingleSocket) -> bool {
        !self.socket_available
    }

    fn socket(&mut self) -> (r: Result<SingleSocket, Error>) {
        if self.socket_available {
            self.socket_available = false;
            Ok(SingleSocket)
        } else {
            Err(Error)
        }
    }

    fn connect(&mut self, socket: SingleSocket, remote: SocketAddr) -> (r: Result<(), Error>)
        ensures
            r is Ok,
            *final(self) == *old(self),
    {
        Ok(())
    }

    fn close(&mut self, socket: SingleSocket)
        ensures
            final(self).avail() == 1,
    {
        self.socket_available = true;
    }
}

/// Law: on the single-slot driver, allocate–connect–release cycles succeed
/// any number of times. Each round's allocation is verified to return `Ok`
/// with a slot usable for one connect, and each close makes the slot
/// allocatable again, so the returned count always equals `rounds`.
pub fn single_slot_reuse(d: &mut DriverB, rounds: usize, remote: SocketAddr) -> (successes: usize)
    requires
        old(d).wf(),
        old(d).avail() == 1,
    ensures
        final(d).wf(),
        final(d).avail() == 1,
        successes == rounds,
{
    let mut successes: usize = 0;
    let mut k: usize = 0;
    while k < rounds
        invariant
            d.wf(),
            d.avail() == 1,
            k <= rounds,
            successes == k,
        decreases rounds - k,
    {
        match d.socket() {
            Ok(id) => {
                let connected = d.connect(id, remote);
                assert(connected is Ok);
                d.close(id);
                successes = successes + 1;
            },
            Err(_) => {
                proof {
                    assert(false);
                }
            },
        }
        k = k + 1;
    }
    successes
}

} // verus!
