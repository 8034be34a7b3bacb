//! The stream store: the live streams of one connection, keyed by id, with
//! strict id monotonicity per direction, the concurrency limit on
//! peer-initiated streams, and a bounded memory of recently closed ids so
//! that late frames are classified as "stream closed", not "never existed".

use vstd::prelude::*;
use crate::flow::{FlowControl, MAX_WINDOW};
use crate::state::StreamState;
use crate::stream_id::{StreamId, STREAM_ID_LIMIT};

verus! {

/// One live stream: its id, lifecycle state, and both window halves.
#[derive(Debug, Copy, Clone, Eq, PartialEq, Structural)]
pub struct Stream {
    pub id: StreamId,
    pub state: StreamState,
    pub send_flow: FlowControl,
    pub recv_flow: FlowControl,
}

impl Stream {
    pub open spec fn wf(self) -> bool {
        &&& self.id.wf()
        &&& self.id.0 != 0
        &&& self.send_flow.wf()
        &&& self.recv_flow.wf()
    }

    pub fn new(id: StreamId, initial_send: u32, initial_recv: u32) -> (r: Stream)
        requires
            id.wf(),
            id.0 != 0,
            initial_send <= MAX_WINDOW,
            initial_recv <= MAX_WINDOW,
        ensures
            r.id == id,
            r.state == StreamState::Idle,
            r.send_flow.window == initial_send,
            r.recv_flow.window == initial_recv,
            r.wf(),
    {
        Stream {
            id,
            state: StreamState::Idle,
            send_flow: FlowControl::new(initial_send),
            recv_flow: FlowControl::new(initial_recv),
        }
    }
}

/// Which side of the connection this engine plays.
#[derive(Debug, Copy, Clone, Eq, PartialEq, Structural)]
pub enum Role {
    Client,
    Server,
}

/// The id parity the peer initiates streams with: clients use odd ids, so a
/// client's peer uses even ids and a server's peer odd ones.
pub open spec fn spec_peer_parity(role: Role) -> u32 {
    match role {
        Role::Client => 0,
        Role::Server => 1,
    }
}

/// The id parity this side initiates streams with.
pub open spec fn spec_local_parity(role: Role) -> u32 {
    match role {
        Role::Client => 1,
        Role::Server => 0,
    }
}

/// Why a new peer-initiated stream was not opened.
#[derive(Debug, Copy, Clone, Eq, PartialEq, Structural)]
pub enum OpenRefusal {
    /// The id runs backwards, repeats, or has the wrong parity: a protocol
    /// violation scoped to the connection.
    Monotonicity,
    /// The concurrency limit is reached: a stream error, REFUSED_STREAM.
    Refused,
}

/// How the store knows an id.
#[derive(Debug, Copy, Clone, Eq, PartialEq, Structural)]
pub enum IdStatus {
    /// A live stream, at this index of the store.
    Active(usize),
    /// Closed, and recently enough that stray frames are still absorbed.
    RecentlyClosed,
    /// Closed: the id lies at or below the highest seen for its direction.
    Closed,
    /// Never used: above everything seen from its direction.
    Unseen,
}

/// The number of peer-initiated streams in `s`.
pub open spec fn spec_count_parity(s: Seq<Stream>, parity: u32) -> int
    decreases s.len(),
{
    if s.len() == 0 {
        0int
    } else {
        spec_count_parity(s.drop_last(), parity) + if s.last().id.0 % 2 == parity {
            1int
        } else {
            0int
        }
    }
}

/// The live streams of one connection.
#[derive(Debug, Clone, Eq, PartialEq)]
pub struct StreamStore {
    pub role: Role,
    pub streams: Vec<Stream>,
    pub closed_recent: Vec<u32>,
    pub closed_cap: usize,
    pub last_peer_id: u32,
    pub last_local_id: u32,
    pub max_concurrent: u32,
}

impl StreamStore {
    /// Every stream well formed; no id twice; every id at or below the
    /// highest its direction has used; the memory of closed ids bounded.
    pub open spec fn wf(self) -> bool {
        &&& forall|i: int| 0 <= i < self.streams@.len() ==> (#[trigger] self.streams@[i]).wf()
        &&& forall|i: int, j: int|
            0 <= i < j < self.streams@.len() ==> (#[trigger] self.streams@[i]).id.0 != (
            #[trigger] self.streams@[j]).id.0
        &&& forall|i: int|
            0 <= i < self.streams@.len() ==> (#[trigger] self.streams@[i]).id.0 <= (
            if self.streams@[i].id.0 % 2 == spec_peer_parity(self.role) {
                self.last_peer_id
            } else {
                self.last_local_id
            })
        &&& self.last_peer_id < STREAM_ID_LIMIT
        &&& self.last_local_id < STREAM_ID_LIMIT
        &&& (self.last_peer_id == 0 || self.last_peer_id % 2 == spec_peer_parity(self.role))
        &&& (self.last_local_id == 0 || self.last_local_id % 2 == spec_local_parity(self.role))
        &&& self.closed_recent@.len() <= self.closed_cap
    }

    /// Whether a live stream carries this id.
    pub open spec fn spec_has_id(self, id: u32) -> bool {
        exists|i: int| 0 <= i < self.streams@.len() && (#[trigger] self.streams@[i]).id.0 == id
    }

    pub fn new(role: Role, max_concurrent: u32, closed_cap: usize) -> (r: StreamStore)
        ensures
            r.role == role,
            r.streams@.len() == 0,
            r.closed_recent@.len() == 0,
            r.last_peer_id == 0,
            r.last_local_id == 0,
            r.max_concurrent == max_concurrent,
            r.closed_cap == closed_cap,
            r.wf(),
    {
        StreamStore {
            role,
            streams: Vec::new(),
            closed_recent: Vec::new(),
            closed_cap,
            last_peer_id: 0,
            last_local_id: 0,
            max_concurrent,
        }
    }

    /// The index of the live stream with this id, if any.
    pub fn find(&self, id: u32) -> (r: Option<usize>)
        ensures
            (match r {
                Some(i) => i < self.streams@.len() && self.streams@[i as int].id.0 == id,
                None => !self.spec_has_id(id),
            }),
    {
        let mut i: usize = 0;
        while i < self.streams.len()
            invariant
                i <= self.streams@.len(),
                forall|j: int| 0 <= j < i ==> (#[trigger] self.streams@[j]).id.0 != id,
            decreases self.streams@.len() - i,
        {
            if self.streams[i].id.value() == id {
                return Some(i);
            }
            i = i + 1;
        }
        None
    }

    /// How many live streams the peer has initiated.
    pub fn count_peer_streams(&self) -> (r: usize)
        ensures
            r == spec_count_parity(self.streams@, spec_peer_parity(self.role)),
    {
        let parity: u32 = match self.role {
            Role::Client => 0,
            Role::Server => 1,
        };
        let mut count: usize = 0;
        let mut i: usize = 0;
        while i < self.streams.len()
            invariant
                i <= self.streams@.len(),
                parity == spec_peer_parity(self.role),
                count == spec_count_parity(self.streams@.take(i as int), parity),
                count <= i,
            decreases self.streams@.len() - i,
        {
            proof {
                assert(self.streams@.take(i + 1).drop_last() =~= self.streams@.take(i as int));
                assert(self.streams@.take(i + 1).last() == self.streams@[i as int]);
            }
            if self.streams[i].id.value() % 2 == parity {
                count = count + 1;
            }
            i = i + 1;
        }
        proof {
            assert(self.streams@.take(self.streams@.len() as int) =~= self.streams@);
        }
        count
    }

    /// Whether this id was closed recently enough to still be remembered.
    pub fn recently_closed(&self, id: u32) -> (r: bool)
        ensures
            r == self.closed_recent@.contains(id),
    {
        let mut i: usize = 0;
        while i < self.closed_recent.len()
            invariant
                i <= self.closed_recent@.len(),
                forall|j: int| 0 <= j < i ==> self.closed_recent@[j] != id,
            decreases self.closed_recent@.len() - i,
        {
            if self.closed_recent[i] == id {
                return true;
            }
            i = i + 1;
        }
        false
    }

    /// Classify an id: live, recently closed, closed long ago, or never used.
    pub fn classify(&self, id: StreamId) -> (r: IdStatus)
        requires
            self.wf(),
        ensures
            (match r {
                IdStatus::Active(i) => i < self.streams@.len() && self.streams@[i as int].id.0
                    == id.0,
                IdStatus::RecentlyClosed => !self.spec_has_id(id.0) && self.closed_recent@.contains(
                    id.0,
                ) && id.0 <= (if id.0 % 2 == spec_peer_parity(self.role) {
                    self.last_peer_id
                } else {
                    self.last_local_id
                }),
                IdStatus::Closed => !self.spec_has_id(id.0) && !self.closed_recent@.contains(id.0)
                    && id.0 <= (if id.0 % 2 == spec_peer_parity(self.role) {
                    self.last_peer_id
                } else {
                    self.last_local_id
                }),
                IdStatus::Unseen => !self.spec_has_id(id.0) && id.0 > (if id.0 % 2
                    == spec_peer_parity(self.role) {
                    self.last_peer_id
                } else {
                    self.last_local_id
                }),
            }),
    {
        match self.find(id.value()) {
            Some(i) => IdStatus::Active(i),
            None => {
                let parity: u32 = match self.role {
                    Role::Client => 0,
                    Role::Server => 1,
                };
                let bound = if id.value() % 2 == parity {
                    self.last_peer_id
                } else {
                    self.last_local_id
                };
                if id.value() > bound {
                    IdStatus::Unseen
                } else if self.recently_closed(id.value()) {
                    IdStatus::RecentlyClosed
                } else {
                    IdStatus::Closed
                }
            },
        }
    }

    /// Open the stream a peer-initiated Headers frame names.  Ids must have
    /// the peer's parity and grow strictly; an id at or below one already
    /// seen is a protocol violation of the whole connection.  A stream past
    /// the concurrency limit is refused — a stream error only.  On any
    /// refusal the store is exactly as it was.
    pub fn open_peer(&mut self, id: StreamId, initial_send: u32, initial_recv: u32) -> (r: Result<
        usize,
        OpenRefusal,
    >)
        requires
            old(self).wf(),
            id.wf(),
            initial_send <= MAX_WINDOW,
            initial_recv <= MAX_WINDOW,
        ensures
            final(self).wf(),
            (id.0 % 2 != spec_peer_parity(old(self).role) || id.0 <= old(self).last_peer_id)
                <==> r == Err::<usize, OpenRefusal>(OpenRefusal::Monotonicity),
            (id.0 % 2 == spec_peer_parity(old(self).role) && id.0 > old(self).last_peer_id
                && spec_count_parity(old(self).streams@, spec_peer_parity(old(self).role))
                >= old(self).max_concurrent) <==> r == Err::<usize, OpenRefusal>(
                OpenRefusal::Refused,
            ),
            r is Err ==> *final(self) == *old(self),
            (match r {
                Ok(i) => {
                    &&& final(self).streams@ == old(self).streams@.push(
                        Stream {
                            id,
                            state: StreamState::Idle,
                            send_flow: FlowControl { window: initial_send as i32 },
                            recv_flow: FlowControl { window: initial_recv as i32 },
                        },
                    )
                    &&& i == old(self).streams@.len()
                    &&& final(self).last_peer_id == id.0
                    &&& final(self).last_local_id == old(self).last_local_id
                    &&& final(self).closed_recent == old(self).closed_recent
                    &&& final(self).closed_cap == old(self).closed_cap
                    &&& final(self).max_concurrent == old(self).max_concurrent
                    &&& final(self).role == old(self).role
                },
                Err(_) => true,
            }),
    {
        let parity: u32 = match self.role {
            Role::Client => 0,
            Role::Server => 1,
        };
        if id.value() % 2 != parity || id.value() <= self.last_peer_id {
            return Err(OpenRefusal::Monotonicity);
        }
        if self.count_peer_streams() >= self.max_concurrent as usize {
            return Err(OpenRefusal::Refused);
        }
        let i = self.streams.len();
        let s = Stream::new(id, initial_send, initial_recv);
        self.streams.push(s);
        self.last_peer_id = id.value();
        proof {
            assert forall|k: int| 0 <= k < self.streams@.len() implies (
            #[trigger] self.streams@[k]).id.0 <= (if self.streams@[k].id.0 % 2 == spec_peer_parity(
                self.role,
            ) {
                self.last_peer_id
            } else {
                self.last_local_id
            }) by {
                if k < old(self).streams@.len() {
                    assert(old(self).streams@[k].id.0 <= (if old(self).streams@[k].id.0 % 2
                        == spec_peer_parity(old(self).role) {
                        old(self).last_peer_id
                    } else {
                        old(self).last_local_id
                    }));
                }
            }
            assert forall|k: int, j: int| 0 <= k < j < self.streams@.len() implies (
            #[trigger] self.streams@[k]).id.0 != (#[trigger] self.streams@[j]).id.0 by {
                if j == self.streams@.len() - 1 && k < old(self).streams@.len() {
                    assert(old(self).streams@[k].id.0 <= (if old(self).streams@[k].id.0 % 2
                        == spec_peer_parity(old(self).role) {
                        old(self).last_peer_id
                    } else {
                        old(self).last_local_id
                    }));
                }
            }
        }
        Ok(i)
    }

    /// Open a stream this side initiates: the next id of the local parity.
    /// Fails only when the 31-bit id space for this direction is spent.
    pub fn open_local(&mut self, initial_send: u32, initial_recv: u32) -> (r: Result<
        StreamId,
        (),
    >)
        requires
            old(self).wf(),
            initial_send <= MAX_WINDOW,
            initial_recv <= MAX_WINDOW,
        ensures
            final(self).wf(),
            (match r {
                Ok(id) => {
                    &&& id.wf()
                    &&& id.0 != 0
                    &&& id.0 % 2 == spec_local_parity(old(self).role)
                    &&& id.0 > old(self).last_local_id
                    &&& final(self).last_local_id == id.0
                    &&& final(self).streams@ == old(self).streams@.push(
                        Stream {
                            id,
                            state: StreamState::Idle,
                            send_flow: FlowControl { window: initial_send as i32 },
                            recv_flow: FlowControl { window: initial_recv as i32 },
                        },
                    )
                    &&& final(self).last_peer_id == old(self).last_peer_id
                    &&& final(self).role == old(self).role
                    &&& final(self).max_concurrent == old(self).max_concurrent
                    &&& final(self).closed_recent == old(self).closed_recent
                    &&& final(self).closed_cap == old(self).closed_cap
                },
                Err(_) => *final(self) == *old(self) && old(self).last_local_id + 2
                    >= STREAM_ID_LIMIT,
            }),
    {
        let first: u32 = match self.role {
            Role::Client => 1,
            Role::Server => 2,
        };
        let next: u32 = if self.last_local_id == 0 {
            first
        } else {
            if self.last_local_id >= STREAM_ID_LIMIT - 2 {
                return Err(());
            }
            self.last_local_id + 2
        };
        proof {
            assert(spec_local_parity(self.role) != spec_peer_parity(self.role));
            assert(first % 2 == spec_local_parity(self.role));
            if self.last_local_id != 0 {
                let l = self.last_local_id;
                assert((l + 2) % 2 == l % 2) by (nonlinear_arith);
            }
            assert(next % 2 == spec_local_parity(self.role));
        }
        let id = StreamId::new(next);
        let s = Stream::new(id, initial_send, initial_recv);
        self.streams.push(s);
        self.last_local_id = next;
        proof {
            assert forall|k: int| 0 <= k < self.streams@.len() implies (
            #[trigger] self.streams@[k]).id.0 <= (if self.streams@[k].id.0 % 2 == spec_peer_parity(
                self.role,
            ) {
                self.last_peer_id
            } else {
                self.last_local_id
            }) by {
                if k < old(self).streams@.len() {
                    assert(old(self).streams@[k].id.0 <= (if old(self).streams@[k].id.0 % 2
                        == spec_peer_parity(old(self).role) {
                        old(self).last_peer_id
                    } else {
                        old(self).last_local_id
                    }));
                }
            }
            assert forall|k: int, j: int| 0 <= k < j < self.streams@.len() implies (
            #[trigger] self.streams@[k]).id.0 != (#[trigger] self.streams@[j]).id.0 by {
                if j == self.streams@.len() - 1 && k < old(self).streams@.len() {
                    assert(old(self).streams@[k].id.0 <= (if old(self).streams@[k].id.0 % 2
                        == spec_peer_parity(old(self).role) {
                        old(self).last_peer_id
                    } else {
                        old(self).last_local_id
                    }));
                }
            }
        }
        Ok(id)
    }

    /// Stream ids from one peer grow strictly over the life of a connection:
    /// any id the store would still accept from the peer lies above every id
    /// it has ever used in either direction, so no id is ever reused.
    pub proof fn lemma_accepted_peer_id_is_fresh(self, id: u32)
        requires
            self.wf(),
            id % 2 == spec_peer_parity(self.role),
            id > self.last_peer_id,
        ensures
            !self.spec_has_id(id),
            forall|i: int|
                0 <= i < self.streams@.len() && (#[trigger] self.streams@[i]).id.0 % 2
                    == spec_peer_parity(self.role) ==> self.streams@[i].id.0 < id,
    {
        assert forall|i: int| 0 <= i < self.streams@.len() implies (
        #[trigger] self.streams@[i]).id.0 != id by {
            assert(self.streams@[i].id.0 <= (if self.streams@[i].id.0 % 2 == spec_peer_parity(
                self.role,
            ) {
                self.last_peer_id
            } else {
                self.last_local_id
            }));
            if self.streams@[i].id.0 % 2 != spec_peer_parity(self.role) {
                assert(self.streams@[i].id.0 % 2 != id % 2);
            }
        }
    }

    /// Drop the stream at this index and remember its id for a while, so
    /// that the peer's in-flight frames are read as "closed", not "unknown".
    /// The memory is bounded: the oldest remembered id makes room.
    pub fn remove_at(&mut self, i: usize)
        requires
            old(self).wf(),
            i < old(self).streams@.len(),
        ensures
            final(self).wf(),
            final(self).streams@ == old(self).streams@.remove(i as int),
            final(self).closed_cap == 0 || final(self).closed_recent@.contains(
                old(self).streams@[i as int].id.0,
            ),
            final(self).last_peer_id == old(self).last_peer_id,
            final(self).last_local_id == old(self).last_local_id,
            final(self).role == old(self).role,
            final(self).max_concurrent == old(self).max_concurrent,
            final(self).closed_cap == old(self).closed_cap,
    {
        let id = self.streams[i].id.value();
        self.streams.remove(i);
        if self.closed_cap == 0 {
            return ;
        }
        if self.closed_recent.len() >= self.closed_cap {
            self.closed_recent.remove(0);
        }
        self.closed_recent.push(id);
        proof {
            assert(self.closed_recent@[self.closed_recent@.len() - 1] == id);
        }
    }
}

} // verus!
