//! Reference driver with a fixed pool of twelve socket slots.

use crate::driver::Error;
use crate::driver::NalDriver;
use crate::driver::SocketAddr;
use vstd::prelude::*;

verus! {

/// Number of slots in the pool.
pub const POOL_SIZE: usize = 12;

/// One slot of the pool.
#[derive(Clone, Copy)]
struct SocketA {
    state: SocketAState,
}

/// Allocation state of one slot. `_Open` is a reserved extension point for a
/// "fully connected" distinction; no operation currently transitions into it.
#[derive(Clone, Copy, PartialEq)]
enum SocketAState {
    Available,
    Used,
    _Open,
}

/// How many slots of `s` are allocatable.
spec fn count_free(s: Seq<SocketA>) -> nat
    decreases s.len(),
{
    if s.len() == 0 {
        0
    } else {
        count_free(s.drop_last()) + if s.last().state is Available {
            1nat
        } else {
            0nat
        }
    }
}

/// There is a free slot exactly when the free count is positive.
proof fn lemma_count_free_pos(s: Seq<SocketA>)
    ensures
        count_free(s) > 0 <==> exists|j: int| 0 <= j < s.len() && s[j].state is Available,
    decreases s.len(),
{
    if s.len() > 0 {
        lemma_count_free_pos(s.drop_last());
        if s.last().state is Available {
            assert(s[s.len() - 1].state is Available);
        } else if count_free(s.drop_last()) > 0 {
            let j = choose|j: int| 0 <= j < s.drop_last().len() && s.drop_last()[j].state
                is Available;
            assert(s[j].state is Available);
        } else {
            assert forall|j: int| 0 <= j < s.len() implies !(s[j].state is Available) by {
                if j < s.len() - 1 {
                    assert(s.drop_last()[j] == s[j]);
                }
            }
        }
    }
}

/// When every slot is free, the free count is the full length.
proof fn lemma_count_free_full(s: Seq<SocketA>)
    requires
        forall|j: int| 0 <= j < s.len() ==> #[trigger] s[j].state is Available,
    ensures
        count_free(s) == s.len(),
    decreases s.len(),
{
    if s.len() > 0 {
        lemma_count_free_full(s.drop_last());
    }
}

/// Replacing one slot changes the free count by the difference the two
/// states make.
proof fn lemma_count_free_update(s: Seq<SocketA>, j: int, x: SocketA)
    requires
        0 <= j < s.len(),
    ensures
        count_free(s.update(j, x)) == count_free(s) - (if s[j].state is Available {
            1int
        } else {
            0int
        }) + (if x.state is Available {
            1int
        } else {
            0int
        }),
    decreases s.len(),
{
    let t = s.update(j, x);
    if j == s.len() - 1 {
        assert(t.drop_last() =~= s.drop_last());
    } else {
        assert(t.drop_last() =~= s.drop_last().update(j, x));
        lemma_count_free_update(s.drop_last(), j, x);
    }
}

/// A network driver that supports up to [`POOL_SIZE`] sockets at once,
/// identified by their index in the pool. Allocation scans the pool in index
/// order and hands out the lowest free slot.
pub struct DriverA {
    sockets: Vec<SocketA>,
}

impl DriverA {
    /// A fresh driver whose slots are all allocatable.
    pub fn new() -> (d: Self)
        ensures
            d.wf(),
            d.avail() == POOL_SIZE,
            forall|i: int| 0 <= i < POOL_SIZE ==> #[trigger] d.slot_free(i),
            forall|id: usize| !#[trigger] d.live(id),
    {
        let mut sockets: Vec<SocketA> = Vec::new();
        let mut i: usize = 0;
        while i < POOL_SIZE
            invariant
                i == sockets@.len() <= POOL_SIZE,
                forall|j: int| 0 <= j < i ==> #[trigger] sockets@[j].state is Available,
            decreases POOL_SIZE - i,
        {
            sockets.push(SocketA { state: SocketAState::Available });
            i = i + 1;
        }
        proof {
            lemma_count_free_full(sockets@);
        }
        DriverA { sockets }
    }

    /// Whether slot `i` is currently allocatable.
    pub closed spec fn slot_free(&self, i: int) -> bool {
        self.sockets@[i].state is Available
    }
}

impl NalDriver for DriverA {
    /// A slot is identified by its index in the pool.
    type SocketIdentifier = usize;

    closed spec fn wf(&self) -> bool {
        self.sockets@.len() == POOL_SIZE
    }

    open spec fn id_ok(id: usize) -> bool {
        id < POOL_SIZE
    }

    closed spec fn avail(&self) -> nat {
        count_free(self.sockets@)
    }

    open spec fn live(&self, id: usize) -> bool {
        id < POOL_SIZE && !self.slot_free(id as int)
    }

    fn socket(&mut self) -> (r: Result<usize, Error>)
        ensures
            r is Ok ==> old(self).slot_free(r->Ok_0 as int) && final(self).live(r->Ok_0),
            r is Ok ==> forall|j: int| 0 <= j < r->Ok_0 ==> !old(self).slot_free(j),
            r is Ok ==> forall|j: int|
                0 <= j < POOL_SIZE && j != r->Ok_0 ==> #[trigger] final(self).slot_free(j)
                    == old(self).slot_free(j),
    {
        let mut i: usize = 0;
        while i < POOL_SIZE
            invariant
                old(self).wf(),
                *self == *old(self),
                i <= POOL_SIZE,
                forall|j: int| 0 <= j < i ==> !old(self).slot_free(j),
            decreases POOL_SIZE - i,
        {
            if matches!(self.sockets[i].state, SocketAState::Available) {
                self.sockets[i] = SocketA { state: SocketAState::Used };
                proof {
                    lemma_count_free_update(old(self).sockets@, i as int, self.sockets@[i as int]);
                    lemma_count_free_pos(old(self).sockets@);
                }
                return Ok(i);
            }
            i = i + 1;
        }
        proof {
            lemma_count_free_pos(self.sockets@);
            if count_free(self.sockets@) > 0 {
                let j = choose|j: int|
                    0 <= j < self.sockets@.len() && self.sockets@[j].state is Available;
                assert(old(self).slot_free(j));
            }
        }
        Err(Error)
    }

    fn connect(&mut self, socket: usize, remote: SocketAddr) -> (r: Result<(), Error>)
        ensures
            r is Ok,
            *final(self) == *old(self),
    {
        Ok(())
    }

    fn close(&mut self, socket: usize)
        ensures
            final(self).slot_free(socket as int),
            forall|j: int|
                0 <= j < POOL_SIZE && j != socket ==> #[trigger] final(self).slot_free(j) == old(
                    self,
                ).slot_free(j),
    {
        self.sockets[socket] = SocketA { state: SocketAState::Available };
        proof {
            lemma_count_free_update(old(self).sockets@, socket as int, self.sockets@[socket as int]);
        }
    }
}

/// Law: starting from a full pool, allocation succeeds exactly
/// [`POOL_SIZE`] times; the identifiers handed out are pairwise distinct
/// and all still live, and afterwards the pool is exhausted, so the next
/// allocation must fail.
pub fn exhaust_pool(d: &mut DriverA) -> (ids: Vec<usize>)
    requires
        old(d).wf(),
        old(d).avail() == POOL_SIZE,
    ensures
        final(d).wf(),
        final(d).avail() == 0,
        ids@.len() == POOL_SIZE,
        forall|k: int| 0 <= k < POOL_SIZE ==> final(d).live(#[trigger] ids@[k]),
        forall|k1: int, k2: int| 0 <= k1 < k2 < POOL_SIZE ==> ids@[k1] != ids@[k2],
{
    let mut ids: Vec<usize> = Vec::new();
    let mut i: usize = 0;
    while i < POOL_SIZE
        invariant
            d.wf(),
            d.avail() == POOL_SIZE - i,
            i == ids@.len() <= POOL_SIZE,
            forall|k: int| 0 <= k < i ==> d.live(#[trigger] ids@[k]),
            forall|k1: int, k2: int| 0 <= k1 < k2 < i ==> ids@[k1] != ids@[k2],
        decreases POOL_SIZE - i,
    {
        match d.socket() {
            Ok(id) => {
                ids.push(id);
            },
            Err(_) => {
                proof {
                    assert(false);
                }
            },
        }
        i = i + 1;
    }
    ids
}

/// Law: a well-formed pooled driver never has more than [`POOL_SIZE`]
/// allocatable slots, so at most [`POOL_SIZE`] allocations can succeed
/// between releases.
pub proof fn lemma_capacity_bound(d: &DriverA)
    requires
        d.wf(),
    ensures
        d.avail() <= POOL_SIZE,
{
    lemma_count_free_at_most_len(d.sockets@);
}

/// The free count never exceeds the pool length.
proof fn lemma_count_free_at_most_len(s: Seq<SocketA>)
    ensures
        count_free(s) <= s.len(),
    decreases s.len(),
{
    if s.len() > 0 {
        lemma_count_free_at_most_len(s.drop_last());
    }
}

} // verus!
