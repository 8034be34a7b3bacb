//! The WINDOW_UPDATE frame: a 4-octet payload holding a reserved bit and a
//! 31-bit window-size increment.

use vstd::prelude::*;
use crate::error::FrameError;
use crate::head::{Head, Kind, spec_enc_head};
use crate::octets::{enc32, dec32, put_u32, get_u32, lemma_enc32_dec};
use crate::stream_id::{StreamId, STREAM_ID_LIMIT};

verus! {

/// A window-size increment announced by the peer for one stream (or, with
/// stream id 0, for the connection).
#[derive(Debug, Copy, Clone, Eq, PartialEq, Structural)]
pub struct WindowUpdate {
    pub stream_id: StreamId,
    pub size_increment: u32,
}

impl WindowUpdate {
    /// A well-formed update has a 31-bit id and a nonzero 31-bit increment.
    pub open spec fn wf(self) -> bool {
        &&& self.stream_id.wf()
        &&& 0 < self.size_increment < STREAM_ID_LIMIT
    }

    pub fn new(stream_id: StreamId, size_increment: u32) -> (r: WindowUpdate)
        ensures
            r == (WindowUpdate { stream_id, size_increment }),
    {
        WindowUpdate { stream_id, size_increment }
    }

    pub fn stream_id(&self) -> (r: StreamId)
        ensures
            r == self.stream_id,
    {
        self.stream_id
    }

    pub fn size_increment(&self) -> (r: u32)
        ensures
            r == self.size_increment,
    {
        self.size_increment
    }

    /// Builds a `WindowUpdate` frame from a raw frame.
    ///
    /// The payload must be exactly four octets; its reserved top bit is
    /// cleared and never interpreted; the remaining 31-bit increment must
    /// not be zero.
    pub fn load(head: Head, payload: &[u8]) -> (r: Result<WindowUpdate, FrameError>)
        ensures
            payload@.len() != 4 ==> r == Err::<WindowUpdate, FrameError>(FrameError::BadFrameSize),
            payload@.len() == 4 ==> {
                let inc = dec32(payload@) % (STREAM_ID_LIMIT as int);
                if inc == 0 {
                    r == Err::<WindowUpdate, FrameError>(FrameError::InvalidWindowUpdateValue)
                } else {
                    r == Ok::<WindowUpdate, FrameError>(
                        WindowUpdate { stream_id: head.stream_id, size_increment: inc as u32 },
                    )
                }
            },
            r matches Ok(w) ==> w.size_increment < STREAM_ID_LIMIT && w.size_increment > 0,
    {
        if payload.len() != 4 {
            return Err(FrameError::BadFrameSize);
        }
        // Clear the most significant bit, as that is reserved and MUST be
        // ignored when received.
        let size_increment = get_u32(payload, 0) % STREAM_ID_LIMIT;
        proof {
            assert(payload@.subrange(0, 4) =~= payload@);
        }
        if size_increment == 0 {
            return Err(FrameError::InvalidWindowUpdateValue);
        }
        Ok(WindowUpdate { stream_id: head.stream_id(), size_increment })
    }

    /// The wire form of this update: a header announcing four payload
    /// octets, then the increment.
    pub open spec fn spec_encode(self) -> Seq<u8> {
        spec_enc_head(4, Kind::WindowUpdate, 0, self.stream_id.0) + enc32(self.size_increment)
    }

    /// Append the encoded frame to `dst`.
    pub fn encode(&self, dst: &mut Vec<u8>)
        requires
            self.wf(),
        ensures
            final(dst)@ == old(dst)@ + self.spec_encode(),
            final(dst)@.len() == old(dst)@.len() + 13,
    {
        let head = Head::new(Kind::WindowUpdate, 0, self.stream_id);
        head.encode(4, dst);
        put_u32(dst, self.size_increment);
        assert(dst@ =~= old(dst)@ + self.spec_encode());
    }
}

/// Loading an encoded well-formed update gives the update back.
pub proof fn lemma_window_update_round_trip(w: WindowUpdate)
    requires
        w.wf(),
    ensures
        ({
            let b = w.spec_encode();
            let payload = b.subrange(9, b.len() as int);
            &&& b.len() == 13
            &&& payload.len() == 4
            &&& dec32(payload) % (STREAM_ID_LIMIT as int) == w.size_increment
        }),
{
    let b = w.spec_encode();
    let payload = b.subrange(9, b.len() as int);
    assert(payload =~= enc32(w.size_increment));
    lemma_enc32_dec(w.size_increment);
}

} // verus!
