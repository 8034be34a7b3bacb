//! The per-stream state machine: which frame events a stream in a given
//! state accepts, and where each legal event takes it.

use vstd::prelude::*;
use crate::error::ErrorCode;

verus! {

/// The lifecycle states of one stream.
#[derive(Debug, Copy, Clone, Eq, PartialEq, Structural)]
pub enum StreamState {
    Idle,
    ReservedLocal,
    ReservedRemote,
    Open,
    HalfClosedLocal,
    HalfClosedRemote,
    Closed,
}

/// The events that drive a stream's lifecycle.
#[derive(Debug, Copy, Clone, Eq, PartialEq, Structural)]
pub enum StreamEvent {
    SendHeaders { end_stream: bool },
    RecvHeaders { end_stream: bool },
    SendData { end_stream: bool },
    RecvData { end_stream: bool },
    SendReset,
    RecvReset,
    RecvWindowUpdate,
}

/// The transition table.  A malformed transition yields the code of the
/// stream error it provokes; the caller decides its scope.  Receiving a
/// WINDOW_UPDATE is legal in every state, Closed included (the grace period
/// for frames in flight); a reset forces Closed from any non-idle state.
pub open spec fn spec_transition(s: StreamState, ev: StreamEvent) -> Result<
    StreamState,
    ErrorCode,
> {
    match ev {
        StreamEvent::SendHeaders { end_stream } => match s {
            StreamState::Idle => Ok(
                if end_stream {
                    StreamState::HalfClosedLocal
                } else {
                    StreamState::Open
                },
            ),
            StreamState::ReservedLocal => Ok(
                if end_stream {
                    StreamState::Closed
                } else {
                    StreamState::HalfClosedRemote
                },
            ),
            StreamState::Open => Ok(
                if end_stream {
                    StreamState::HalfClosedLocal
                } else {
                    StreamState::Open
                },
            ),
            StreamState::HalfClosedRemote => Ok(
                if end_stream {
                    StreamState::Closed
                } else {
                    StreamState::HalfClosedRemote
                },
            ),
            StreamState::Closed => Err(ErrorCode::StreamClosed),
            _ => Err(ErrorCode::ProtocolError),
        },
        StreamEvent::RecvHeaders { end_stream } => match s {
            StreamState::Idle => Ok(
                if end_stream {
                    StreamState::HalfClosedRemote
                } else {
                    StreamState::Open
                },
            ),
            StreamState::ReservedRemote => Ok(
                if end_stream {
                    StreamState::Closed
                } else {
                    StreamState::HalfClosedLocal
                },
            ),
            StreamState::Open => Ok(
                if end_stream {
                    StreamState::HalfClosedRemote
                } else {
                    StreamState::Open
                },
            ),
            StreamState::HalfClosedLocal => Ok(
                if end_stream {
                    StreamState::Closed
                } else {
                    StreamState::HalfClosedLocal
                },
            ),
            StreamState::Closed => Err(ErrorCode::StreamClosed),
            StreamState::HalfClosedRemote => Err(ErrorCode::StreamClosed),
            _ => Err(ErrorCode::ProtocolError),
        },
        StreamEvent::SendData { end_stream } => match s {
            StreamState::Open => Ok(
                if end_stream {
                    StreamState::HalfClosedLocal
                } else {
                    StreamState::Open
                },
            ),
            StreamState::HalfClosedRemote => Ok(
                if end_stream {
                    StreamState::Closed
                } else {
                    StreamState::HalfClosedRemote
                },
            ),
            StreamState::Closed => Err(ErrorCode::StreamClosed),
            StreamState::HalfClosedLocal => Err(ErrorCode::StreamClosed),
            _ => Err(ErrorCode::ProtocolError),
        },
        StreamEvent::RecvData { end_stream } => match s {
            StreamState::Open => Ok(
                if end_stream {
                    StreamState::HalfClosedRemote
                } else {
                    StreamState::Open
                },
            ),
            StreamState::HalfClosedLocal => Ok(
                if end_stream {
                    StreamState::Closed
                } else {
                    StreamState::HalfClosedLocal
                },
            ),
            StreamState::Closed => Err(ErrorCode::StreamClosed),
            StreamState::HalfClosedRemote => Err(ErrorCode::StreamClosed),
            _ => Err(ErrorCode::ProtocolError),
        },
        StreamEvent::SendReset => match s {
            StreamState::Idle => Err(ErrorCode::ProtocolError),
            _ => Ok(StreamState::Closed),
        },
        StreamEvent::RecvReset => match s {
            StreamState::Idle => Err(ErrorCode::ProtocolError),
            _ => Ok(StreamState::Closed),
        },
        StreamEvent::RecvWindowUpdate => Ok(s),
    }
}

impl StreamState {
    /// Whether both directions have ended.
    pub open spec fn is_closed(self) -> bool {
        self is Closed
    }

    /// Whether the stream has reached its terminal state.
    pub fn is_terminal(&self) -> (r: bool)
        ensures
            r == (*self is Closed),
    {
        matches!(*self, StreamState::Closed)
    }

    /// Apply one event.  The result is exactly what the transition table
    /// says; an error leaves the caller's state to keep or reset.
    pub fn transition(&self, ev: StreamEvent) -> (r: Result<StreamState, ErrorCode>)
        ensures
            r == spec_transition(*self, ev),
    {
        match ev {
            StreamEvent::SendHeaders { end_stream } => match *self {
                StreamState::Idle => Ok(
                    if end_stream {
                        StreamState::HalfClosedLocal
                    } else {
                        StreamState::Open
                    },
                ),
                StreamState::ReservedLocal => Ok(
                    if end_stream {
                        StreamState::Closed
                    } else {
                        StreamState::HalfClosedRemote
                    },
                ),
                StreamState::Open => Ok(
                    if end_stream {
                        StreamState::HalfClosedLocal
                    } else {
                        StreamState::Open
                    },
                ),
                StreamState::HalfClosedRemote => Ok(
                    if end_stream {
                        StreamState::Closed
                    } else {
                        StreamState::HalfClosedRemote
                    },
                ),
                StreamState::Closed => Err(ErrorCode::StreamClosed),
                _ => Err(ErrorCode::ProtocolError),
            },
            StreamEvent::RecvHeaders { end_stream } => match *self {
                StreamState::Idle => Ok(
                    if end_stream {
                        StreamState::HalfClosedRemote
                    } else {
                        StreamState::Open
                    },
                ),
                StreamState::ReservedRemote => Ok(
                    if end_stream {
                        StreamState::Closed
                    } else {
                        StreamState::HalfClosedLocal
                    },
                ),
                StreamState::Open => Ok(
                    if end_stream {
                        StreamState::HalfClosedRemote
                    } else {
                        StreamState::Open
                    },
                ),
                StreamState::HalfClosedLocal => Ok(
                    if end_stream {
                        StreamState::Closed
                    } else {
                        StreamState::HalfClosedLocal
                    },
                ),
                StreamState::Closed => Err(ErrorCode::StreamClosed),
                StreamState::HalfClosedRemote => Err(ErrorCode::StreamClosed),
                _ => Err(ErrorCode::ProtocolError),
            },
            StreamEvent::SendData { end_stream } => match *self {
                StreamState::Open => Ok(
                    if end_stream {
                        StreamState::HalfClosedLocal
                    } else {
                        StreamState::Open
                    },
                ),
                StreamState::HalfClosedRemote => Ok(
                    if end_stream {
                        StreamState::Closed
                    } else {
                        StreamState::HalfClosedRemote
                    },
                ),
                StreamState::Closed => Err(ErrorCode::StreamClosed),
                StreamState::HalfClosedLocal => Err(ErrorCode::StreamClosed),
                _ => Err(ErrorCode::ProtocolError),
            },
            StreamEvent::RecvData { end_stream } => match *self {
                StreamState::Open => Ok(
                    if end_stream {
                        StreamState::HalfClosedRemote
                    } else {
                        StreamState::Open
                    },
                ),
                StreamState::HalfClosedLocal => Ok(
                    if end_stream {
                        StreamState::Closed
                    } else {
                        StreamState::HalfClosedLocal
                    },
                ),
                StreamState::Closed => Err(ErrorCode::StreamClosed),
                StreamState::HalfClosedRemote => Err(ErrorCode::StreamClosed),
                _ => Err(ErrorCode::ProtocolError),
            },
            StreamEvent::SendReset => match *self {
                StreamState::Idle => Err(ErrorCode::ProtocolError),
                _ => Ok(StreamState::Closed),
            },
            StreamEvent::RecvReset => match *self {
                StreamState::Idle => Err(ErrorCode::ProtocolError),
                _ => Ok(StreamState::Closed),
            },
            StreamEvent::RecvWindowUpdate => Ok(*self),
        }
    }
}

/// A stream that has emitted END_STREAM in both directions is Closed, and a
/// Closed stream accepts no further Headers or Data in either direction —
/// only the grace-period reset and window update.
pub proof fn lemma_end_stream_both_ways_closes(es: bool)
    ensures
        spec_transition(StreamState::HalfClosedLocal, StreamEvent::RecvData { end_stream: true })
            == Ok::<StreamState, ErrorCode>(StreamState::Closed),
        spec_transition(StreamState::HalfClosedLocal, StreamEvent::RecvHeaders { end_stream: true })
            == Ok::<StreamState, ErrorCode>(StreamState::Closed),
        spec_transition(StreamState::HalfClosedRemote, StreamEvent::SendData { end_stream: true })
            == Ok::<StreamState, ErrorCode>(StreamState::Closed),
        spec_transition(StreamState::HalfClosedRemote, StreamEvent::SendHeaders { end_stream: true })
            == Ok::<StreamState, ErrorCode>(StreamState::Closed),
        spec_transition(StreamState::Closed, StreamEvent::RecvData { end_stream: es }) == Err::<
            StreamState,
            ErrorCode,
        >(ErrorCode::StreamClosed),
        spec_transition(StreamState::Closed, StreamEvent::SendData { end_stream: es }) == Err::<
            StreamState,
            ErrorCode,
        >(ErrorCode::StreamClosed),
        spec_transition(StreamState::Closed, StreamEvent::RecvHeaders { end_stream: es }) == Err::<
            StreamState,
            ErrorCode,
        >(ErrorCode::StreamClosed),
        spec_transition(StreamState::Closed, StreamEvent::RecvReset) == Ok::<
            StreamState,
            ErrorCode,
        >(StreamState::Closed),
        spec_transition(StreamState::Closed, StreamEvent::RecvWindowUpdate) == Ok::<
            StreamState,
            ErrorCode,
        >(StreamState::Closed),
{
}

} // verus!
