//! Error taxonomy: malformed frames, per-stream errors that leave the
//! connection alive, and connection errors that end it.

use vstd::prelude::*;

verus! {

/// A frame that could not be decoded, or that may not be encoded.
#[derive(Debug, Copy, Clone, Eq, PartialEq, Structural)]
pub enum FrameError {
    /// The payload length does not fit the frame kind.
    BadFrameSize,
    /// A WINDOW_UPDATE carried a zero increment.
    InvalidWindowUpdateValue,
    /// The frame kind forbids the stream id it carried.
    InvalidStreamId,
    /// The declared payload exceeds the negotiated maximum frame size.
    FrameTooLarge,
}

/// Wire error codes carried by RST_STREAM and GOAWAY frames.
#[derive(Debug, Copy, Clone, Eq, PartialEq, Structural)]
pub enum ErrorCode {
    NoError,
    ProtocolError,
    InternalError,
    FlowControlError,
    StreamClosed,
    FrameSizeError,
    RefusedStream,
    Cancel,
    /// A code this engine does not interpret; kept verbatim.
    Other(u32),
}

/// The 32-bit wire value of an error code.
pub open spec fn spec_code_value(c: ErrorCode) -> u32 {
    match c {
        ErrorCode::NoError => 0,
        ErrorCode::ProtocolError => 1,
        ErrorCode::InternalError => 2,
        ErrorCode::FlowControlError => 3,
        ErrorCode::StreamClosed => 5,
        ErrorCode::FrameSizeError => 6,
        ErrorCode::RefusedStream => 7,
        ErrorCode::Cancel => 8,
        ErrorCode::Other(v) => v,
    }
}

/// The error code a 32-bit wire value names.
pub open spec fn spec_code_of(v: u32) -> ErrorCode {
    if v == 0 {
        ErrorCode::NoError
    } else if v == 1 {
        ErrorCode::ProtocolError
    } else if v == 2 {
        ErrorCode::InternalError
    } else if v == 3 {
        ErrorCode::FlowControlError
    } else if v == 5 {
        ErrorCode::StreamClosed
    } else if v == 6 {
        ErrorCode::FrameSizeError
    } else if v == 7 {
        ErrorCode::RefusedStream
    } else if v == 8 {
        ErrorCode::Cancel
    } else {
        ErrorCode::Other(v)
    }
}

impl ErrorCode {
    /// Codes produced by reading the wire never shadow a named code.
    pub open spec fn wf(self) -> bool {
        self matches ErrorCode::Other(v) ==> (v == 4 || v > 8)
    }

    /// The 32-bit value sent on the wire for this code.
    pub fn value(&self) -> (r: u32)
        ensures
            r == spec_code_value(*self),
    {
        match *self {
            ErrorCode::NoError => 0,
            ErrorCode::ProtocolError => 1,
            ErrorCode::InternalError => 2,
            ErrorCode::FlowControlError => 3,
            ErrorCode::StreamClosed => 5,
            ErrorCode::FrameSizeError => 6,
            ErrorCode::RefusedStream => 7,
            ErrorCode::Cancel => 8,
            ErrorCode::Other(v) => v,
        }
    }

    /// The code named by a 32-bit value read from the wire.
    pub fn from_value(v: u32) -> (r: ErrorCode)
        ensures
            r == spec_code_of(v),
            r.wf(),
    {
        if v == 0 {
            ErrorCode::NoError
        } else if v == 1 {
            ErrorCode::ProtocolError
        } else if v == 2 {
            ErrorCode::InternalError
        } else if v == 3 {
            ErrorCode::FlowControlError
        } else if v == 5 {
            ErrorCode::StreamClosed
        } else if v == 6 {
            ErrorCode::FrameSizeError
        } else if v == 7 {
            ErrorCode::RefusedStream
        } else if v == 8 {
            ErrorCode::Cancel
        } else {
            ErrorCode::Other(v)
        }
    }
}

/// Reading a code back from its wire value gives the code.
pub proof fn lemma_code_round_trip(c: ErrorCode)
    requires
        c.wf(),
    ensures
        spec_code_of(spec_code_value(c)) == c,
{
}

/// An error scoped to one stream: the stream is reset, the connection lives.
#[derive(Debug, Copy, Clone, Eq, PartialEq, Structural)]
pub struct StreamError {
    pub id: crate::stream_id::StreamId,
    pub code: ErrorCode,
}

/// A fatal connection error: GOAWAY is sent and the connection closes.
#[derive(Debug, Copy, Clone, Eq, PartialEq, Structural)]
pub struct ConnectionError {
    pub code: ErrorCode,
}

} // verus!
