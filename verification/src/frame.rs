//! The frame codec: a typed view of every frame kind, a total encoder for
//! well-formed frames, and a decoder that either yields a frame and the
//! number of octets consumed, asks for more bytes, or rejects the input.

use vstd::prelude::*;
use vstd::arithmetic::div_mod::lemma_fundamental_div_mod;
use crate::error::FrameError;
use crate::head::{Head, Kind, spec_kind_of, spec_enc_head};
use crate::octets::{enc16, enc32, dec16, dec24, dec32, put_u16, put_u32, put_bytes, get_u16,
    get_u32, lemma_enc16_dec, lemma_enc32_dec};
use crate::stream_id::{StreamId, STREAM_ID_LIMIT};
use crate::window_update::WindowUpdate;

verus! {

/// The largest payload the engine accepts before settings raise it.
pub const DEFAULT_MAX_FRAME_SIZE: u32 = 16_384;

/// A typed frame.  Unknown kinds are carried verbatim rather than rejected,
/// for forward compatibility.
#[derive(Debug, Clone, Eq, PartialEq)]
pub enum Frame {
    Data { stream_id: StreamId, flags: u8, payload: Vec<u8> },
    Headers { stream_id: StreamId, flags: u8, fragment: Vec<u8> },
    Priority { stream_id: StreamId, payload: Vec<u8> },
    Reset { stream_id: StreamId, error_code: u32 },
    Settings { flags: u8, pairs: Vec<(u16, u32)> },
    PushPromise { stream_id: StreamId, flags: u8, promised_id: StreamId, fragment: Vec<u8> },
    Ping { flags: u8, payload: Vec<u8> },
    GoAway { last_stream_id: StreamId, error_code: u32, debug_data: Vec<u8> },
    WindowUpdate(WindowUpdate),
    Continuation { stream_id: StreamId, flags: u8, fragment: Vec<u8> },
    Unknown { kind: u8, stream_id: StreamId, flags: u8, payload: Vec<u8> },
}

/// The mathematical model of a frame: ids and payloads as plain values.
pub enum FrameV {
    Data { stream_id: u32, flags: u8, payload: Seq<u8> },
    Headers { stream_id: u32, flags: u8, fragment: Seq<u8> },
    Priority { stream_id: u32, payload: Seq<u8> },
    Reset { stream_id: u32, error_code: u32 },
    Settings { flags: u8, pairs: Seq<(u16, u32)> },
    PushPromise { stream_id: u32, flags: u8, promised_id: u32, fragment: Seq<u8> },
    Ping { flags: u8, payload: Seq<u8> },
    GoAway { last_stream_id: u32, error_code: u32, debug_data: Seq<u8> },
    WindowUpdate { stream_id: u32, size_increment: u32 },
    Continuation { stream_id: u32, flags: u8, fragment: Seq<u8> },
    Unknown { kind: u8, stream_id: u32, flags: u8, payload: Seq<u8> },
}

impl View for Frame {
    type V = FrameV;

    open spec fn view(&self) -> FrameV {
        match self {
            Frame::Data { stream_id, flags, payload } => FrameV::Data {
                stream_id: stream_id.0,
                flags: *flags,
                payload: payload@,
            },
            Frame::Headers { stream_id, flags, fragment } => FrameV::Headers {
                stream_id: stream_id.0,
                flags: *flags,
                fragment: fragment@,
            },
            Frame::Priority { stream_id, payload } => FrameV::Priority {
                stream_id: stream_id.0,
                payload: payload@,
            },
            Frame::Reset { stream_id, error_code } => FrameV::Reset {
                stream_id: stream_id.0,
                error_code: *error_code,
            },
            Frame::Settings { flags, pairs } => FrameV::Settings { flags: *flags, pairs: pairs@ },
            Frame::PushPromise { stream_id, flags, promised_id, fragment } => FrameV::PushPromise {
                stream_id: stream_id.0,
                flags: *flags,
                promised_id: promised_id.0,
                fragment: fragment@,
            },
            Frame::Ping { flags, payload } => FrameV::Ping { flags: *flags, payload: payload@ },
            Frame::GoAway { last_stream_id, error_code, debug_data } => FrameV::GoAway {
                last_stream_id: last_stream_id.0,
                error_code: *error_code,
                debug_data: debug_data@,
            },
            Frame::WindowUpdate(w) => FrameV::WindowUpdate {
                stream_id: w.stream_id.0,
                size_increment: w.size_increment,
            },
            Frame::Continuation { stream_id, flags, fragment } => FrameV::Continuation {
                stream_id: stream_id.0,
                flags: *flags,
                fragment: fragment@,
            },
            Frame::Unknown { kind, stream_id, flags, payload } => FrameV::Unknown {
                kind: *kind,
                stream_id: stream_id.0,
                flags: *flags,
                payload: payload@,
            },
        }
    }
}

/// The six octets of one settings pair: a 16-bit identifier, a 32-bit value.
pub open spec fn enc_pair(p: (u16, u32)) -> Seq<u8> {
    enc16(p.0) + enc32(p.1)
}

/// The octets of a whole settings payload, pair after pair.
pub open spec fn enc_pairs(ps: Seq<(u16, u32)>) -> Seq<u8>
    decreases ps.len(),
{
    if ps.len() == 0 {
        Seq::empty()
    } else {
        enc_pair(ps[0]) + enc_pairs(ps.drop_first())
    }
}

/// The settings pair held in six octets.
pub open spec fn dec_pair(s: Seq<u8>) -> (u16, u32)
    recommends
        s.len() == 6,
{
    (dec16(s.subrange(0, 2)) as u16, dec32(s.subrange(2, 6)) as u32)
}

/// Every settings pair held in a payload whose length is a multiple of six.
pub open spec fn dec_pairs(s: Seq<u8>) -> Seq<(u16, u32)>
    decreases s.len(),
{
    if s.len() < 6 {
        Seq::empty()
    } else {
        seq![dec_pair(s.subrange(0, 6))] + dec_pairs(s.skip(6))
    }
}

/// A settings payload is six octets per pair.
pub proof fn lemma_enc_pairs_len(ps: Seq<(u16, u32)>)
    ensures
        enc_pairs(ps).len() == 6 * ps.len(),
    decreases ps.len(),
{
    if ps.len() > 0 {
        lemma_enc_pairs_len(ps.drop_first());
    }
}

/// Encoding one more pair appends its six octets.
pub proof fn lemma_enc_pairs_push(ps: Seq<(u16, u32)>, p: (u16, u32))
    ensures
        enc_pairs(ps.push(p)) == enc_pairs(ps) + enc_pair(p),
    decreases ps.len(),
{
    if ps.len() == 0 {
        let single = ps.push(p);
        assert(single[0] == p);
        assert(single.drop_first() =~= Seq::<(u16, u32)>::empty());
        assert(enc_pairs(single.drop_first()) == Seq::<u8>::empty());
        assert(enc_pairs(single) == enc_pair(p) + enc_pairs(single.drop_first()));
        assert(enc_pairs(ps) == Seq::<u8>::empty());
        assert(enc_pairs(single) =~= enc_pairs(ps) + enc_pair(p));
    } else {
        assert(ps.push(p).drop_first() =~= ps.drop_first().push(p));
        lemma_enc_pairs_push(ps.drop_first(), p);
        assert(ps.push(p)[0] == ps[0]);
        assert(enc_pairs(ps.push(p)) == enc_pair(ps[0]) + enc_pairs(ps.drop_first().push(p)));
        assert(enc_pairs(ps.drop_first().push(p)) == enc_pairs(ps.drop_first()) + enc_pair(p));
        assert(enc_pair(ps[0]) + (enc_pairs(ps.drop_first()) + enc_pair(p)) =~= (enc_pair(ps[0])
            + enc_pairs(ps.drop_first())) + enc_pair(p));
        assert(enc_pairs(ps.push(p)) =~= enc_pairs(ps) + enc_pair(p));
    }
}

/// Decoding an encoded settings payload gives the pairs back.
pub proof fn lemma_pairs_round_trip(ps: Seq<(u16, u32)>)
    ensures
        dec_pairs(enc_pairs(ps)) == ps,
    decreases ps.len(),
{
    if ps.len() > 0 {
        let b = enc_pairs(ps);
        lemma_enc_pairs_len(ps.drop_first());
        assert(b.len() >= 6);
        assert(b.subrange(0, 6) =~= enc_pair(ps[0]));
        assert(b.skip(6) =~= enc_pairs(ps.drop_first()));
        assert(enc_pair(ps[0]).subrange(0, 2) =~= enc16(ps[0].0));
        assert(enc_pair(ps[0]).subrange(2, 6) =~= enc32(ps[0].1));
        lemma_enc16_dec(ps[0].0);
        lemma_enc32_dec(ps[0].1);
        assert(dec_pair(b.subrange(0, 6)) == ps[0]);
        lemma_pairs_round_trip(ps.drop_first());
        assert(dec_pairs(b) =~= ps);
    }
}

/// Six octets per decoded pair, no more.
pub proof fn lemma_dec_pairs_len(s: Seq<u8>)
    ensures
        6 * dec_pairs(s).len() <= s.len(),
    decreases s.len(),
{
    if s.len() >= 6 {
        lemma_dec_pairs_len(s.skip(6));
    }
}

impl FrameV {
    /// Well-formedness: ids fit in 31 bits and are zero exactly for the
    /// connection-scoped kinds, and each payload has a length its kind allows.
    pub open spec fn wf(self) -> bool {
        match self {
            FrameV::Data { stream_id, payload, .. } => 0 < stream_id < STREAM_ID_LIMIT
                && payload.len() < 0x100_0000,
            FrameV::Headers { stream_id, fragment, .. } => 0 < stream_id < STREAM_ID_LIMIT
                && fragment.len() < 0x100_0000,
            FrameV::Priority { stream_id, payload } => 0 < stream_id < STREAM_ID_LIMIT
                && payload.len() == 5,
            FrameV::Reset { stream_id, .. } => 0 < stream_id < STREAM_ID_LIMIT,
            FrameV::Settings { pairs, .. } => 6 * pairs.len() < 0x100_0000,
            FrameV::PushPromise { stream_id, promised_id, fragment, .. } => 0 < stream_id
                < STREAM_ID_LIMIT && 0 < promised_id < STREAM_ID_LIMIT && 4 + fragment.len()
                < 0x100_0000,
            FrameV::Ping { payload, .. } => payload.len() == 8,
            FrameV::GoAway { last_stream_id, debug_data, .. } => last_stream_id < STREAM_ID_LIMIT
                && 8 + debug_data.len() < 0x100_0000,
            FrameV::WindowUpdate { stream_id, size_increment } => stream_id < STREAM_ID_LIMIT && 0
                < size_increment < STREAM_ID_LIMIT,
            FrameV::Continuation { stream_id, fragment, .. } => 0 < stream_id < STREAM_ID_LIMIT
                && fragment.len() < 0x100_0000,
            FrameV::Unknown { kind, stream_id, payload, .. } => kind > 9 && stream_id
                < STREAM_ID_LIMIT && payload.len() < 0x100_0000,
        }
    }

    /// The kind octet this frame is tagged with.
    pub open spec fn spec_kind(self) -> Kind {
        match self {
            FrameV::Data { .. } => Kind::Data,
            FrameV::Headers { .. } => Kind::Headers,
            FrameV::Priority { .. } => Kind::Priority,
            FrameV::Reset { .. } => Kind::Reset,
            FrameV::Settings { .. } => Kind::Settings,
            FrameV::PushPromise { .. } => Kind::PushPromise,
            FrameV::Ping { .. } => Kind::Ping,
            FrameV::GoAway { .. } => Kind::GoAway,
            FrameV::WindowUpdate { .. } => Kind::WindowUpdate,
            FrameV::Continuation { .. } => Kind::Continuation,
            FrameV::Unknown { kind, .. } => Kind::Unknown(kind),
        }
    }

    /// The stream id written in the header; 0 for connection-scoped kinds.
    pub open spec fn spec_stream_id(self) -> u32 {
        match self {
            FrameV::Data { stream_id, .. } => stream_id,
            FrameV::Headers { stream_id, .. } => stream_id,
            FrameV::Priority { stream_id, .. } => stream_id,
            FrameV::Reset { stream_id, .. } => stream_id,
            FrameV::Settings { .. } => 0,
            FrameV::PushPromise { stream_id, .. } => stream_id,
            FrameV::Ping { .. } => 0,
            FrameV::GoAway { .. } => 0,
            FrameV::WindowUpdate { stream_id, .. } => stream_id,
            FrameV::Continuation { stream_id, .. } => stream_id,
            FrameV::Unknown { stream_id, .. } => stream_id,
        }
    }

    /// The flag octet written in the header; 0 for kinds that define none.
    pub open spec fn spec_flags(self) -> u8 {
        match self {
            FrameV::Data { flags, .. } => flags,
            FrameV::Headers { flags, .. } => flags,
            FrameV::Priority { .. } => 0,
            FrameV::Reset { .. } => 0,
            FrameV::Settings { flags, .. } => flags,
            FrameV::PushPromise { flags, .. } => flags,
            FrameV::Ping { flags, .. } => flags,
            FrameV::GoAway { .. } => 0,
            FrameV::WindowUpdate { .. } => 0,
            FrameV::Continuation { flags, .. } => flags,
            FrameV::Unknown { flags, .. } => flags,
        }
    }

    /// The payload octets following the header.
    pub open spec fn spec_payload(self) -> Seq<u8> {
        match self {
            FrameV::Data { payload, .. } => payload,
            FrameV::Headers { fragment, .. } => fragment,
            FrameV::Priority { payload, .. } => payload,
            FrameV::Reset { error_code, .. } => enc32(error_code),
            FrameV::Settings { pairs, .. } => enc_pairs(pairs),
            FrameV::PushPromise { promised_id, fragment, .. } => enc32(promised_id) + fragment,
            FrameV::Ping { payload, .. } => payload,
            FrameV::GoAway { last_stream_id, error_code, debug_data } => enc32(last_stream_id)
                + enc32(error_code) + debug_data,
            FrameV::WindowUpdate { size_increment, .. } => enc32(size_increment),
            FrameV::Continuation { fragment, .. } => fragment,
            FrameV::Unknown { payload, .. } => payload,
        }
    }

    /// The whole wire form: nine header octets, then the payload.
    pub open spec fn spec_encode(self) -> Seq<u8> {
        spec_enc_head(
            self.spec_payload().len() as u32,
            self.spec_kind(),
            self.spec_flags(),
            self.spec_stream_id(),
        ) + self.spec_payload()
    }
}

/// What a frame kind makes of its header fields and payload octets.
pub open spec fn spec_load(k: Kind, flag: u8, sid: u32, payload: Seq<u8>) -> Result<
    FrameV,
    FrameError,
> {
    match k {
        Kind::Data => if sid == 0 {
            Err(FrameError::InvalidStreamId)
        } else {
            Ok(FrameV::Data { stream_id: sid, flags: flag, payload })
        },
        Kind::Headers => if sid == 0 {
            Err(FrameError::InvalidStreamId)
        } else {
            Ok(FrameV::Headers { stream_id: sid, flags: flag, fragment: payload })
        },
        Kind::Priority => if sid == 0 {
            Err(FrameError::InvalidStreamId)
        } else if payload.len() != 5 {
            Err(FrameError::BadFrameSize)
        } else {
            Ok(FrameV::Priority { stream_id: sid, payload })
        },
        Kind::Reset => if sid == 0 {
            Err(FrameError::InvalidStreamId)
        } else if payload.len() != 4 {
            Err(FrameError::BadFrameSize)
        } else {
            Ok(FrameV::Reset { stream_id: sid, error_code: dec32(payload) as u32 })
        },
        Kind::Settings => if sid != 0 {
            Err(FrameError::InvalidStreamId)
        } else if payload.len() % 6 != 0 {
            Err(FrameError::BadFrameSize)
        } else {
            Ok(FrameV::Settings { flags: flag, pairs: dec_pairs(payload) })
        },
        Kind::PushPromise => if sid == 0 {
            Err(FrameError::InvalidStreamId)
        } else if payload.len() < 4 {
            Err(FrameError::BadFrameSize)
        } else {
            let pid = dec32(payload.subrange(0, 4)) % (STREAM_ID_LIMIT as int);
            if pid == 0 {
                Err(FrameError::InvalidStreamId)
            } else {
                Ok(
                    FrameV::PushPromise {
                        stream_id: sid,
                        flags: flag,
                        promised_id: pid as u32,
                        fragment: payload.skip(4),
                    },
                )
            }
        },
        Kind::Ping => if sid != 0 {
            Err(FrameError::InvalidStreamId)
        } else if payload.len() != 8 {
            Err(FrameError::BadFrameSize)
        } else {
            Ok(FrameV::Ping { flags: flag, payload })
        },
        Kind::GoAway => if sid != 0 {
            Err(FrameError::InvalidStreamId)
        } else if payload.len() < 8 {
            Err(FrameError::BadFrameSize)
        } else {
            Ok(
                FrameV::GoAway {
                    last_stream_id: (dec32(payload.subrange(0, 4)) % (STREAM_ID_LIMIT as int)) as u32,
                    error_code: dec32(payload.subrange(4, 8)) as u32,
                    debug_data: payload.skip(8),
                },
            )
        },
        Kind::WindowUpdate => if payload.len() != 4 {
            Err(FrameError::BadFrameSize)
        } else {
            let inc = dec32(payload) % (STREAM_ID_LIMIT as int);
            if inc == 0 {
                Err(FrameError::InvalidWindowUpdateValue)
            } else {
                Ok(FrameV::WindowUpdate { stream_id: sid, size_increment: inc as u32 })
            }
        },
        Kind::Continuation => if sid == 0 {
            Err(FrameError::InvalidStreamId)
        } else {
            Ok(FrameV::Continuation { stream_id: sid, flags: flag, fragment: payload })
        },
        Kind::Unknown(b) => Ok(FrameV::Unknown { kind: b, stream_id: sid, flags: flag, payload }),
    }
}

/// What decoding a byte prefix yields.
pub enum DecodedV {
    /// The buffer does not yet hold a whole frame.
    NeedMore,
    /// The frame at the front of the buffer is malformed.
    Fail(FrameError),
    /// The frame at the front of the buffer, and the octets it occupies.
    Frame(FrameV, int),
}

/// The decoding of the front of `b`: the frame found there and its length
/// in octets, a request for more bytes, or the malformation found.
pub open spec fn spec_decode(b: Seq<u8>, max_frame_size: u32) -> DecodedV {
    if b.len() < 9 {
        DecodedV::NeedMore
    } else {
        let len = dec24(b.subrange(0, 3));
        if len > max_frame_size {
            DecodedV::Fail(FrameError::FrameTooLarge)
        } else if b.len() < 9 + len {
            DecodedV::NeedMore
        } else {
            let k = spec_kind_of(b[3]);
            let flag = b[4];
            let sid = (dec32(b.subrange(5, 9)) % (STREAM_ID_LIMIT as int)) as u32;
            match spec_load(k, flag, sid, b.subrange(9, 9 + len)) {
                Ok(f) => DecodedV::Frame(f, 9 + len),
                Err(e) => DecodedV::Fail(e),
            }
        }
    }
}

impl Frame {
    /// Append the wire form of this frame to `dst`.  Total for well-formed
    /// frames: every such frame has exactly one encoding.
    pub fn encode(&self, dst: &mut Vec<u8>)
        requires
            self@.wf(),
        ensures
            final(dst)@ == old(dst)@ + self@.spec_encode(),
    {
        match self {
            Frame::Data { stream_id, flags, payload } => {
                let head = Head::new(Kind::Data, *flags, *stream_id);
                head.encode(payload.len() as u32, dst);
                put_bytes(dst, payload);
                assert(dst@ =~= old(dst)@ + self@.spec_encode());
            },
            Frame::Headers { stream_id, flags, fragment } => {
                let head = Head::new(Kind::Headers, *flags, *stream_id);
                head.encode(fragment.len() as u32, dst);
                put_bytes(dst, fragment);
                assert(dst@ =~= old(dst)@ + self@.spec_encode());
            },
            Frame::Priority { stream_id, payload } => {
                let head = Head::new(Kind::Priority, 0, *stream_id);
                head.encode(payload.len() as u32, dst);
                put_bytes(dst, payload);
                assert(dst@ =~= old(dst)@ + self@.spec_encode());
            },
            Frame::Reset { stream_id, error_code } => {
                let head = Head::new(Kind::Reset, 0, *stream_id);
                head.encode(4, dst);
                put_u32(dst, *error_code);
                assert(dst@ =~= old(dst)@ + self@.spec_encode());
            },
            Frame::Settings { flags, pairs } => {
                let ghost dst0 = dst@;
                proof {
                    lemma_enc_pairs_len(pairs@);
                }
                let head = Head::new(Kind::Settings, *flags, StreamId::zero());
                head.encode((pairs.len() * 6) as u32, dst);
                let ghost with_head = dst@;
                let mut i: usize = 0;
                while i < pairs.len()
                    invariant
                        i <= pairs@.len(),
                        dst@ == with_head + enc_pairs(pairs@.take(i as int)),
                    decreases pairs@.len() - i,
                {
                    let p = pairs[i];
                    put_u16(dst, p.0);
                    put_u32(dst, p.1);
                    proof {
                        assert(pairs@.take(i + 1) =~= pairs@.take(i as int).push(pairs@[i as int]));
                        lemma_enc_pairs_push(pairs@.take(i as int), pairs@[i as int]);
                        assert(dst@ =~= with_head + enc_pairs(pairs@.take(i + 1)));
                    }
                    i = i + 1;
                }
                proof {
                    assert(pairs@.take(pairs@.len() as int) =~= pairs@);
                    assert(dst@ =~= dst0 + self@.spec_encode());
                }
            },
            Frame::PushPromise { stream_id, flags, promised_id, fragment } => {
                let head = Head::new(Kind::PushPromise, *flags, *stream_id);
                head.encode(4 + fragment.len() as u32, dst);
                put_u32(dst, promised_id.value());
                put_bytes(dst, fragment);
                assert(dst@ =~= old(dst)@ + self@.spec_encode());
            },
            Frame::Ping { flags, payload } => {
                let head = Head::new(Kind::Ping, *flags, StreamId::zero());
                head.encode(payload.len() as u32, dst);
                put_bytes(dst, payload);
                assert(dst@ =~= old(dst)@ + self@.spec_encode());
            },
            Frame::GoAway { last_stream_id, error_code, debug_data } => {
                let head = Head::new(Kind::GoAway, 0, StreamId::zero());
                head.encode(8 + debug_data.len() as u32, dst);
                put_u32(dst, last_stream_id.value());
                put_u32(dst, *error_code);
                put_bytes(dst, debug_data);
                assert(dst@ =~= old(dst)@ + self@.spec_encode());
            },
            Frame::WindowUpdate(w) => {
                w.encode(dst);
                assert(dst@ =~= old(dst)@ + self@.spec_encode());
            },
            Frame::Continuation { stream_id, flags, fragment } => {
                let head = Head::new(Kind::Continuation, *flags, *stream_id);
                head.encode(fragment.len() as u32, dst);
                put_bytes(dst, fragment);
                assert(dst@ =~= old(dst)@ + self@.spec_encode());
            },
            Frame::Unknown { kind, stream_id, flags, payload } => {
                let head = Head::new(Kind::Unknown(*kind), *flags, *stream_id);
                head.encode(payload.len() as u32, dst);
                put_bytes(dst, payload);
                assert(dst@ =~= old(dst)@ + self@.spec_encode());
            },
        }
    }

    /// Decode the frame at the front of `b`.  `Ok(None)` asks the caller to
    /// buffer more bytes; it is not an error.  On success the frame and the
    /// number of octets it occupied are returned.
    pub fn decode(b: &[u8], max_frame_size: u32) -> (r: Result<
        Option<(Frame, usize)>,
        FrameError,
    >)
        requires
            max_frame_size < 0x100_0000,
        ensures
            (match r {
                Ok(None) => spec_decode(b@, max_frame_size) is NeedMore,
                Ok(Some((f, n))) => spec_decode(b@, max_frame_size) == DecodedV::Frame(
                    f@,
                    n as int,
                ) && f@.wf() && 9 <= n <= b@.len(),
                Err(e) => spec_decode(b@, max_frame_size) == DecodedV::Fail(e),
            }),
    {
        if b.len() < 9 {
            return Ok(None);
        }
        let (len, head) = Head::parse(b);
        if len > max_frame_size {
            return Err(FrameError::FrameTooLarge);
        }
        if b.len() - 9 < len as usize {
            return Ok(None);
        }
        let n: usize = 9 + len as usize;
        let payload = vstd::slice::slice_subrange(b, 9, n);
        let ghost pv = b@.subrange(9, 9 + dec24(b@.subrange(0, 3)));
        assert(payload@ =~= pv);
        let sid = head.stream_id();
        let flag = head.flag();
        match head.kind() {
            Kind::Data => {
                if sid.is_zero() {
                    return Err(FrameError::InvalidStreamId);
                }
                Ok(
                    Some(
                        (
                            Frame::Data {
                                stream_id: sid,
                                flags: flag,
                                payload: vstd::slice::slice_to_vec(payload),
                            },
                            n,
                        ),
                    ),
                )
            },
            Kind::Headers => {
                if sid.is_zero() {
                    return Err(FrameError::InvalidStreamId);
                }
                Ok(
                    Some(
                        (
                            Frame::Headers {
                                stream_id: sid,
                                flags: flag,
                                fragment: vstd::slice::slice_to_vec(payload),
                            },
                            n,
                        ),
                    ),
                )
            },
            Kind::Priority => {
                if sid.is_zero() {
                    return Err(FrameError::InvalidStreamId);
                }
                if payload.len() != 5 {
                    return Err(FrameError::BadFrameSize);
                }
                Ok(
                    Some(
                        (
                            Frame::Priority {
                                stream_id: sid,
                                payload: vstd::slice::slice_to_vec(payload),
                            },
                            n,
                        ),
                    ),
                )
            },
            Kind::Reset => {
                if sid.is_zero() {
                    return Err(FrameError::InvalidStreamId);
                }
                if payload.len() != 4 {
                    return Err(FrameError::BadFrameSize);
                }
                let code = get_u32(payload, 0);
                assert(payload@.subrange(0, 4) =~= pv);
                Ok(Some((Frame::Reset { stream_id: sid, error_code: code }, n)))
            },
            Kind::Settings => {
                if !sid.is_zero() {
                    return Err(FrameError::InvalidStreamId);
                }
                if payload.len() % 6 != 0 {
                    return Err(FrameError::BadFrameSize);
                }
                let n_pairs = payload.len() / 6;
                proof {
                    lemma_fundamental_div_mod(payload@.len() as int, 6);
                }
                let mut pairs: Vec<(u16, u32)> = Vec::new();
                let mut i: usize = 0;
                proof {
                    assert(payload@.skip(0) =~= payload@);
                    assert(pairs@ + dec_pairs(payload@) =~= dec_pairs(payload@));
                }
                while i < n_pairs
                    invariant
                        payload@.len() % 6 == 0,
                        payload@.len() == 6 * n_pairs,
                        payload@.len() < 0x100_0000,
                        i <= n_pairs,
                        dec_pairs(payload@) == pairs@ + dec_pairs(payload@.skip(6 * i as int)),
                        pairs@.len() == i,
                    decreases n_pairs - i,
                {
                    let id = get_u16(payload, 6 * i);
                    let value = get_u32(payload, 6 * i + 2);
                    proof {
                        let rest = payload@.skip(6 * i as int);
                        assert(rest.len() == 6 * n_pairs - 6 * i as int);
                        assert(rest.len() >= 6);
                        assert(rest.subrange(0, 6).subrange(0, 2) =~= payload@.subrange(
                            6 * i as int,
                            6 * i + 2,
                        ));
                        assert(rest.subrange(0, 6).subrange(2, 6) =~= payload@.subrange(
                            6 * i + 2,
                            6 * i + 6,
                        ));
                        assert(dec_pair(rest.subrange(0, 6)) == (id, value));
                        assert(rest.skip(6) =~= payload@.skip(6 * (i + 1)));
                        assert(pairs@.push((id, value)) + dec_pairs(payload@.skip(6 * (i + 1)))
                            =~= pairs@ + dec_pairs(rest));
                    }
                    pairs.push((id, value));
                    i = i + 1;
                }
                proof {
                    assert(payload@.skip(6 * n_pairs as int).len() == 0);
                    assert(dec_pairs(payload@.skip(6 * n_pairs as int)) =~= Seq::<(
                        u16,
                        u32,
                    )>::empty());
                    assert(pairs@ + Seq::<(u16, u32)>::empty() =~= pairs@);
                    lemma_dec_pairs_len(payload@);
                }
                Ok(Some((Frame::Settings { flags: flag, pairs }, n)))
            },
            Kind::PushPromise => {
                if sid.is_zero() {
                    return Err(FrameError::InvalidStreamId);
                }
                if payload.len() < 4 {
                    return Err(FrameError::BadFrameSize);
                }
                let pid = StreamId::parse(get_u32(payload, 0));
                if pid.is_zero() {
                    return Err(FrameError::InvalidStreamId);
                }
                let fragment = vstd::slice::slice_subrange(payload, 4, payload.len());
                assert(fragment@ =~= pv.skip(4));
                Ok(
                    Some(
                        (
                            Frame::PushPromise {
                                stream_id: sid,
                                flags: flag,
                                promised_id: pid,
                                fragment: vstd::slice::slice_to_vec(fragment),
                            },
                            n,
                        ),
                    ),
                )
            },
            Kind::Ping => {
                if !sid.is_zero() {
                    return Err(FrameError::InvalidStreamId);
                }
                if payload.len() != 8 {
                    return Err(FrameError::BadFrameSize);
                }
                Ok(
                    Some(
                        (
                            Frame::Ping { flags: flag, payload: vstd::slice::slice_to_vec(payload) },
                            n,
                        ),
                    ),
                )
            },
            Kind::GoAway => {
                if !sid.is_zero() {
                    return Err(FrameError::InvalidStreamId);
                }
                if payload.len() < 8 {
                    return Err(FrameError::BadFrameSize);
                }
                let last = StreamId::parse(get_u32(payload, 0));
                let code = get_u32(payload, 4);
                let debug = vstd::slice::slice_subrange(payload, 8, payload.len());
                assert(debug@ =~= pv.skip(8));
                Ok(
                    Some(
                        (
                            Frame::GoAway {
                                last_stream_id: last,
                                error_code: code,
                                debug_data: vstd::slice::slice_to_vec(debug),
                            },
                            n,
                        ),
                    ),
                )
            },
            Kind::WindowUpdate => {
                match WindowUpdate::load(head, payload) {
                    Ok(w) => Ok(Some((Frame::WindowUpdate(w), n))),
                    Err(e) => Err(e),
                }
            },
            Kind::Continuation => {
                if sid.is_zero() {
                    return Err(FrameError::InvalidStreamId);
                }
                Ok(
                    Some(
                        (
                            Frame::Continuation {
                                stream_id: sid,
                                flags: flag,
                                fragment: vstd::slice::slice_to_vec(payload),
                            },
                            n,
                        ),
                    ),
                )
            },
            Kind::Unknown(kb) => {
                Ok(
                    Some(
                        (
                            Frame::Unknown {
                                kind: kb,
                                stream_id: sid,
                                flags: flag,
                                payload: vstd::slice::slice_to_vec(payload),
                            },
                            n,
                        ),
                    ),
                )
            },
        }
    }
}

/// Decoding the encoding of any well-formed frame that fits the negotiated
/// maximum frame size gives the frame back: the codec is a round trip.
pub proof fn lemma_frame_round_trip(f: FrameV, max_frame_size: u32)
    requires
        f.wf(),
        f.spec_payload().len() <= max_frame_size,
    ensures
        spec_decode(f.spec_encode(), max_frame_size) == DecodedV::Frame(
            f,
            f.spec_encode().len() as int,
        ),
{
    let payload = f.spec_payload();
    match f {
        FrameV::Settings { pairs, .. } => lemma_enc_pairs_len(pairs),
        _ => {},
    }
    assert(payload.len() < 0x100_0000);
    let len = payload.len() as u32;
    let k = f.spec_kind();
    let flag = f.spec_flags();
    let sid = f.spec_stream_id();
    let h = spec_enc_head(len, k, flag, sid);
    let b = f.spec_encode();
    crate::head::lemma_head_round_trip(len, k, flag, sid);
    assert(b.len() == 9 + payload.len());
    assert(b.subrange(0, 3) =~= h.subrange(0, 3));
    assert(b[3] == h[3] && b[4] == h[4]);
    assert(b.subrange(5, 9) =~= h.subrange(5, 9));
    assert(b.subrange(9, 9 + len) =~= payload);
    assert(dec24(b.subrange(0, 3)) == len);
    assert(spec_kind_of(b[3]) == k);
    assert((dec32(b.subrange(5, 9)) % (STREAM_ID_LIMIT as int)) as u32 == sid);
    match f {
        FrameV::Data { .. } => {},
        FrameV::Headers { .. } => {},
        FrameV::Priority { .. } => {},
        FrameV::Reset { error_code, .. } => {
            lemma_enc32_dec(error_code);
        },
        FrameV::Settings { pairs, .. } => {
            lemma_pairs_round_trip(pairs);
            assert(payload.len() % 6 == 0) by {
                lemma_enc_pairs_len(pairs);
                lemma_fundamental_div_mod(payload.len() as int, 6);
                assert(6 * pairs.len() % 6 == 0) by (nonlinear_arith);
            }
        },
        FrameV::PushPromise { promised_id, fragment, .. } => {
            assert(payload.subrange(0, 4) =~= enc32(promised_id));
            lemma_enc32_dec(promised_id);
            assert(payload.skip(4) =~= fragment);
        },
        FrameV::Ping { .. } => {},
        FrameV::GoAway { last_stream_id, error_code, debug_data } => {
            assert(payload.subrange(0, 4) =~= enc32(last_stream_id));
            assert(payload.subrange(4, 8) =~= enc32(error_code));
            lemma_enc32_dec(last_stream_id);
            lemma_enc32_dec(error_code);
            assert(payload.skip(8) =~= debug_data);
        },
        FrameV::WindowUpdate { size_increment, .. } => {
            lemma_enc32_dec(size_increment);
        },
        FrameV::Continuation { .. } => {},
        FrameV::Unknown { .. } => {},
    }
}

} // verus!
