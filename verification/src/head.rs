//! The fixed 9-octet frame header: a 24-bit payload length, an 8-bit frame
//! kind, an 8-bit flag set, and a reserved bit followed by a 31-bit stream id.

use vstd::prelude::*;
use crate::octets::{enc24, enc32, dec24, dec32, put_u24, put_u32, get_u24, get_u32, lemma_enc24_dec,
    lemma_enc32_dec};
use crate::stream_id::{StreamId, STREAM_ID_LIMIT};

verus! {

/// The number of octets in a frame header.
pub const HEADER_LEN: usize = 9;

/// The kind of a frame, as carried in the header's type octet.
#[derive(Debug, Copy, Clone, Eq, PartialEq, Structural)]
pub enum Kind {
    Data,
    Headers,
    Priority,
    Reset,
    Settings,
    PushPromise,
    Ping,
    GoAway,
    WindowUpdate,
    Continuation,
    /// A kind this engine does not know; kept for forward compatibility.
    Unknown(u8),
}

/// The type octet that names a kind on the wire.
pub open spec fn spec_kind_code(k: Kind) -> u8 {
    match k {
        Kind::Data => 0,
        Kind::Headers => 1,
        Kind::Priority => 2,
        Kind::Reset => 3,
        Kind::Settings => 4,
        Kind::PushPromise => 5,
        Kind::Ping => 6,
        Kind::GoAway => 7,
        Kind::WindowUpdate => 8,
        Kind::Continuation => 9,
        Kind::Unknown(b) => b,
    }
}

/// The kind a type octet names.
pub open spec fn spec_kind_of(b: u8) -> Kind {
    if b == 0 {
        Kind::Data
    } else if b == 1 {
        Kind::Headers
    } else if b == 2 {
        Kind::Priority
    } else if b == 3 {
        Kind::Reset
    } else if b == 4 {
        Kind::Settings
    } else if b == 5 {
        Kind::PushPromise
    } else if b == 6 {
        Kind::Ping
    } else if b == 7 {
        Kind::GoAway
    } else if b == 8 {
        Kind::WindowUpdate
    } else if b == 9 {
        Kind::Continuation
    } else {
        Kind::Unknown(b)
    }
}

impl Kind {
    /// An unknown kind never shadows a known type octet.
    pub open spec fn wf(self) -> bool {
        self matches Kind::Unknown(b) ==> b > 9
    }

    /// The type octet for this kind.
    pub fn code(&self) -> (r: u8)
        ensures
            r == spec_kind_code(*self),
    {
        match *self {
            Kind::Data => 0,
            Kind::Headers => 1,
            Kind::Priority => 2,
            Kind::Reset => 3,
            Kind::Settings => 4,
            Kind::PushPromise => 5,
            Kind::Ping => 6,
            Kind::GoAway => 7,
            Kind::WindowUpdate => 8,
            Kind::Continuation => 9,
            Kind::Unknown(b) => b,
        }
    }

    /// The kind named by a type octet.
    pub fn from_code(b: u8) -> (r: Kind)
        ensures
            r == spec_kind_of(b),
            r.wf(),
    {
        if b == 0 {
            Kind::Data
        } else if b == 1 {
            Kind::Headers
        } else if b == 2 {
            Kind::Priority
        } else if b == 3 {
            Kind::Reset
        } else if b == 4 {
            Kind::Settings
        } else if b == 5 {
            Kind::PushPromise
        } else if b == 6 {
            Kind::Ping
        } else if b == 7 {
            Kind::GoAway
        } else if b == 8 {
            Kind::WindowUpdate
        } else if b == 9 {
            Kind::Continuation
        } else {
            Kind::Unknown(b)
        }
    }
}

/// Reading a kind back from its type octet gives the kind.
pub proof fn lemma_kind_round_trip(k: Kind)
    requires
        k.wf(),
    ensures
        spec_kind_of(spec_kind_code(k)) == k,
{
}

/// The nine header octets for a frame of kind `k` with `flag` and stream id
/// `sid` announcing `len` payload octets.
pub open spec fn spec_enc_head(len: u32, k: Kind, flag: u8, sid: u32) -> Seq<u8>
    recommends
        len < 0x100_0000,
        sid < STREAM_ID_LIMIT,
{
    enc24(len) + seq![spec_kind_code(k), flag] + enc32(sid)
}

/// A decoded frame header.
#[derive(Debug, Copy, Clone, Eq, PartialEq, Structural)]
pub struct Head {
    pub kind: Kind,
    pub flag: u8,
    pub stream_id: StreamId,
}

impl Head {
    /// A header is well formed when its kind and stream id are.
    pub open spec fn wf(self) -> bool {
        self.kind.wf() && self.stream_id.wf()
    }

    pub fn new(kind: Kind, flag: u8, stream_id: StreamId) -> (r: Head)
        ensures
            r == (Head { kind, flag, stream_id }),
    {
        Head { kind, flag, stream_id }
    }

    pub fn kind(&self) -> (r: Kind)
        ensures
            r == self.kind,
    {
        self.kind
    }

    pub fn flag(&self) -> (r: u8)
        ensures
            r == self.flag,
    {
        self.flag
    }

    pub fn stream_id(&self) -> (r: StreamId)
        ensures
            r == self.stream_id,
    {
        self.stream_id
    }

    /// Append the nine header octets announcing `payload_len` payload octets.
    pub fn encode(&self, payload_len: u32, dst: &mut Vec<u8>)
        requires
            payload_len < 0x100_0000,
            self.stream_id.wf(),
        ensures
            final(dst)@ == old(dst)@ + spec_enc_head(
                payload_len,
                self.kind,
                self.flag,
                self.stream_id.0,
            ),
    {
        put_u24(dst, payload_len);
        dst.push(self.kind.code());
        dst.push(self.flag);
        put_u32(dst, self.stream_id.0);
        assert(dst@ =~= old(dst)@ + spec_enc_head(
            payload_len,
            self.kind,
            self.flag,
            self.stream_id.0,
        ));
    }

    /// Read the declared payload length and header fields from the first
    /// nine octets of `b`.  The reserved top bit of the stream id is cleared.
    pub fn parse(b: &[u8]) -> (r: (u32, Head))
        requires
            b@.len() >= 9,
        ensures
            r.0 == dec24(b@.subrange(0, 3)),
            r.0 < 0x100_0000,
            r.1.kind == spec_kind_of(b@[3]),
            r.1.flag == b@[4],
            r.1.stream_id.0 == dec32(b@.subrange(5, 9)) % (STREAM_ID_LIMIT as int),
            r.1.wf(),
    {
        let len = get_u24(b, 0);
        let kind = Kind::from_code(b[3]);
        let flag = b[4];
        let raw = get_u32(b, 5);
        let sid = StreamId::parse(raw);
        (len, Head { kind, flag, stream_id: sid })
    }
}

/// A header encodes to nine octets, and parsing them gives the header and
/// the declared length back.
pub proof fn lemma_head_round_trip(len: u32, k: Kind, flag: u8, sid: u32)
    requires
        len < 0x100_0000,
        sid < STREAM_ID_LIMIT,
        k.wf(),
    ensures
        spec_enc_head(len, k, flag, sid).len() == 9,
        ({
            let h = spec_enc_head(len, k, flag, sid);
            &&& dec24(h.subrange(0, 3)) == len
            &&& spec_kind_of(h[3]) == k
            &&& h[4] == flag
            &&& dec32(h.subrange(5, 9)) == sid
            &&& (sid as int) % (STREAM_ID_LIMIT as int) == sid
        }),
{
    let h = spec_enc_head(len, k, flag, sid);
    assert(h.subrange(0, 3) =~= enc24(len));
    assert(h.subrange(5, 9) =~= enc32(sid));
    lemma_enc24_dec(len);
    lemma_enc32_dec(sid);
    lemma_kind_round_trip(k);
}

} // verus!
