//! Stream identifiers: 31-bit unsigned values.  Id 0 addresses the
//! connection itself; odd ids are client-initiated, even ids (other than 0)
//! are peer-initiated.  The wire carries a stream id as 32 bits whose top
//! bit is reserved and ignored on read.

use vstd::prelude::*;

verus! {

/// The lowest value the 31-bit stream-id space cannot hold.
pub const STREAM_ID_LIMIT: u32 = 0x8000_0000;

/// A 31-bit stream identifier.
#[derive(Debug, Copy, Clone, Eq, PartialEq, Structural)]
pub struct StreamId(pub u32);

impl StreamId {
    /// A stream id is well formed when it fits in 31 bits.
    pub open spec fn wf(self) -> bool {
        self.0 < STREAM_ID_LIMIT
    }

    /// The id addressing the connection itself.
    pub fn zero() -> (r: StreamId)
        ensures
            r.0 == 0,
            r.wf(),
    {
        StreamId(0)
    }

    /// Wrap a value known to fit in 31 bits.
    pub fn new(v: u32) -> (r: StreamId)
        requires
            v < STREAM_ID_LIMIT,
        ensures
            r.0 == v,
            r.wf(),
    {
        StreamId(v)
    }

    /// Read an id from its 32-bit wire form, clearing the reserved top bit.
    pub fn parse(raw: u32) -> (r: StreamId)
        ensures
            r.0 == raw % STREAM_ID_LIMIT,
            r.wf(),
    {
        StreamId(raw % STREAM_ID_LIMIT)
    }

    /// The numeric value of the id.
    pub fn value(&self) -> (r: u32)
        ensures
            r == self.0,
    {
        self.0
    }

    /// Whether this id addresses the connection rather than a stream.
    pub fn is_zero(&self) -> (r: bool)
        ensures
            r == (self.0 == 0),
    {
        self.0 == 0
    }

    /// Whether the id belongs to the client-initiated (odd) half of the space.
    pub fn is_client_initiated(&self) -> (r: bool)
        ensures
            r == (self.0 % 2 == 1),
    {
        self.0 % 2 == 1
    }
}

} // verus!
