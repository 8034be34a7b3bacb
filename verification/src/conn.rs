//! The connection multiplexer: one owner of the stream store, the
//! connection-level windows and the negotiated settings.  Inbound frames are
//! routed to the right stream, validated against the state machine and the
//! flow-control accounting, and turned into events for the application and
//! actions for the transport; outbound sends pass the admission check.

use vstd::prelude::*;
use crate::error::{ErrorCode, ConnectionError, spec_code_value};
use crate::flow::{FlowControl, MAX_WINDOW, DEFAULT_INITIAL_WINDOW_SIZE, spec_apply_increment};
use crate::frame::Frame;
use crate::frame::FrameV;
use crate::window_update::WindowUpdate;
use crate::state::{StreamState, StreamEvent, spec_transition};
use crate::store::{Stream, StreamStore, Role, OpenRefusal, IdStatus, spec_peer_parity,
    spec_count_parity};
use crate::stream_id::StreamId;

verus! {

/// The wire identifier of SETTINGS_MAX_CONCURRENT_STREAMS.
pub const SETTING_MAX_CONCURRENT_STREAMS: u16 = 3;

/// The wire identifier of SETTINGS_INITIAL_WINDOW_SIZE.
pub const SETTING_INITIAL_WINDOW_SIZE: u16 = 4;

/// The wire identifier of SETTINGS_MAX_FRAME_SIZE.
pub const SETTING_MAX_FRAME_SIZE: u16 = 5;

/// How many recently closed stream ids a connection remembers.
pub const CLOSED_RETENTION: usize = 32;

/// One side's settings, local or remote.
#[derive(Debug, Copy, Clone, Eq, PartialEq, Structural)]
pub struct ConnSettings {
    pub max_concurrent_streams: u32,
    pub initial_window_size: u32,
    pub max_frame_size: u32,
}

impl ConnSettings {
    pub open spec fn wf(self) -> bool {
        &&& self.initial_window_size <= MAX_WINDOW
        &&& 16_384 <= self.max_frame_size < 0x100_0000
    }

    /// The values every connection starts from before SETTINGS arrive.
    pub fn initial() -> (r: ConnSettings)
        ensures
            r.max_concurrent_streams == 0xFFFF_FFFFu32,
            r.initial_window_size == DEFAULT_INITIAL_WINDOW_SIZE,
            r.max_frame_size == 16_384,
            r.wf(),
    {
        ConnSettings {
            max_concurrent_streams: 0xFFFF_FFFF,
            initial_window_size: DEFAULT_INITIAL_WINDOW_SIZE,
            max_frame_size: 16_384,
        }
    }
}

/// One settings pair applied: unknown identifiers are ignored, not errors;
/// an initial window above 2^31 - 1 is a flow-control error; a maximum frame
/// size outside its legal range is a protocol error.
pub open spec fn spec_apply_setting(s: ConnSettings, p: (u16, u32)) -> Result<
    ConnSettings,
    ErrorCode,
> {
    if p.0 == SETTING_MAX_CONCURRENT_STREAMS {
        Ok(
            ConnSettings {
                max_concurrent_streams: p.1,
                initial_window_size: s.initial_window_size,
                max_frame_size: s.max_frame_size,
            },
        )
    } else if p.0 == SETTING_INITIAL_WINDOW_SIZE {
        if p.1 > MAX_WINDOW {
            Err(ErrorCode::FlowControlError)
        } else {
            Ok(
                ConnSettings {
                    max_concurrent_streams: s.max_concurrent_streams,
                    initial_window_size: p.1,
                    max_frame_size: s.max_frame_size,
                },
            )
        }
    } else if p.0 == SETTING_MAX_FRAME_SIZE {
        if p.1 < 16_384 || p.1 >= 0x100_0000 {
            Err(ErrorCode::ProtocolError)
        } else {
            Ok(
                ConnSettings {
                    max_concurrent_streams: s.max_concurrent_streams,
                    initial_window_size: s.initial_window_size,
                    max_frame_size: p.1,
                },
            )
        }
    } else {
        Ok(s)
    }
}

/// A whole SETTINGS payload applied in order, stopping at the first error.
pub open spec fn spec_fold_settings(s: ConnSettings, ps: Seq<(u16, u32)>) -> Result<
    ConnSettings,
    ErrorCode,
>
    decreases ps.len(),
{
    if ps.len() == 0 {
        Ok(s)
    } else {
        match spec_apply_setting(s, ps[0]) {
            Ok(s1) => spec_fold_settings(s1, ps.drop_first()),
            Err(e) => Err(e),
        }
    }
}

/// What the engine tells the application about one inbound frame.
#[derive(Debug, Clone, Eq, PartialEq)]
pub enum Event {
    StreamOpened { id: StreamId, fragment: Vec<u8>, end_stream: bool },
    HeadersReceived { id: StreamId, fragment: Vec<u8>, end_stream: bool },
    DataReceived { id: StreamId, payload: Vec<u8>, end_stream: bool },
    StreamReset { id: StreamId, code: ErrorCode },
    WindowUpdated { id: StreamId },
    SettingsReceived { ack: bool },
    PingAcked,
    PushPromised { id: StreamId, promised_id: StreamId },
    GoAwayReceived { last_stream_id: StreamId, code: ErrorCode },
}

/// What the engine asks the transport to send back.
#[derive(Debug, Clone, Eq, PartialEq)]
pub enum Action {
    SendReset { id: StreamId, code: ErrorCode },
    SendPingAck { payload: Vec<u8> },
    SendSettingsAck,
}

/// The outcome of one inbound frame that did not kill the connection.
#[derive(Debug, Clone, Eq, PartialEq)]
pub struct Handled {
    pub event: Option<Event>,
    pub action: Option<Action>,
}

/// Whether an outbound send may proceed now or must wait for window.
#[derive(Debug, Copy, Clone, Eq, PartialEq, Structural)]
pub enum Admission {
    Admitted,
    Blocked,
}

/// One multiplexed connection.
#[derive(Debug, Clone, Eq, PartialEq)]
pub struct Connection {
    pub store: StreamStore,
    pub send_flow: FlowControl,
    pub recv_flow: FlowControl,
    pub local_settings: ConnSettings,
    pub remote_settings: ConnSettings,
    pub goaway_sent: Option<u32>,
    pub goaway_received: Option<u32>,
}

impl Connection {
    pub open spec fn wf(self) -> bool {
        &&& self.store.wf()
        &&& self.send_flow.wf()
        &&& self.recv_flow.wf()
        &&& self.local_settings.wf()
        &&& self.remote_settings.wf()
    }

    /// Whether this connection is shutting down and takes no new streams.
    pub open spec fn spec_closing(self) -> bool {
        self.goaway_sent is Some || self.goaway_received is Some
    }

    /// The id bound a frame's stream id is measured against: the highest id
    /// its direction has used.
    pub open spec fn spec_id_bound(self, id: u32) -> u32 {
        if id % 2 == spec_peer_parity(self.store.role) {
            self.store.last_peer_id
        } else {
            self.store.last_local_id
        }
    }

    pub fn new(role: Role, local_settings: ConnSettings) -> (r: Connection)
        requires
            local_settings.wf(),
        ensures
            r.store.role == role,
            r.store.streams@.len() == 0,
            r.store.max_concurrent == local_settings.max_concurrent_streams,
            r.send_flow.window == DEFAULT_INITIAL_WINDOW_SIZE,
            r.recv_flow.window == DEFAULT_INITIAL_WINDOW_SIZE,
            r.local_settings == local_settings,
            r.remote_settings.max_concurrent_streams == 0xFFFF_FFFFu32,
            r.remote_settings.initial_window_size == DEFAULT_INITIAL_WINDOW_SIZE,
            r.remote_settings.max_frame_size == 16_384,
            !r.spec_closing(),
            r.wf(),
    {
        Connection {
            store: StreamStore::new(role, local_settings.max_concurrent_streams, CLOSED_RETENTION),
            send_flow: FlowControl::new(DEFAULT_INITIAL_WINDOW_SIZE),
            recv_flow: FlowControl::new(DEFAULT_INITIAL_WINDOW_SIZE),
            local_settings,
            remote_settings: ConnSettings::initial(),
            goaway_sent: None,
            goaway_received: None,
        }
    }

    /// Open a stream for the application.  Refused once the connection is
    /// shutting down; otherwise the next id of the local parity, its send
    /// window at the peer's initial window size, its receive window at ours.
    pub fn open_stream(&mut self) -> (r: Result<StreamId, ErrorCode>)
        requires
            old(self).wf(),
        ensures
            final(self).wf(),
            old(self).spec_closing() ==> r == Err::<StreamId, ErrorCode>(ErrorCode::RefusedStream)
                && *final(self) == *old(self),
            (match r {
                Ok(id) => {
                    &&& !old(self).spec_closing()
                    &&& id.wf()
                    &&& id.0 != 0
                    &&& id.0 > old(self).store.last_local_id
                    &&& final(self).store.streams@ == old(self).store.streams@.push(
                        Stream {
                            id,
                            state: StreamState::Idle,
                            send_flow: FlowControl {
                                window: old(self).remote_settings.initial_window_size as i32,
                            },
                            recv_flow: FlowControl {
                                window: old(self).local_settings.initial_window_size as i32,
                            },
                        },
                    )
                    &&& final(self).store.last_local_id == id.0
                    &&& final(self).send_flow == old(self).send_flow
                },
                Err(e) => *final(self) == *old(self) && (if old(self).spec_closing() {
                    e == ErrorCode::RefusedStream
                } else {
                    e == ErrorCode::ProtocolError && old(self).store.last_local_id + 2
                        >= crate::stream_id::STREAM_ID_LIMIT
                }),
            }),
    {
        if self.goaway_sent.is_some() || self.goaway_received.is_some() {
            return Err(ErrorCode::RefusedStream);
        }
        match self.store.open_local(
            self.remote_settings.initial_window_size,
            self.local_settings.initial_window_size,
        ) {
            Ok(id) => Ok(id),
            Err(_) => Err(ErrorCode::ProtocolError),
        }
    }

    /// Send headers on a stream: the state machine's send-headers step.
    pub fn send_headers(&mut self, id: StreamId, end_stream: bool) -> (r: Result<(), ErrorCode>)
        requires
            old(self).wf(),
        ensures
            final(self).wf(),
            !old(self).store.spec_has_id(id.0) ==> r is Err && *final(self) == *old(self),
            forall|i: int|
                0 <= i < old(self).store.streams@.len() && (#[trigger] old(
                    self,
                ).store.streams@[i]).id.0 == id.0 ==> (match spec_transition(
                old(self).store.streams@[i].state,
                StreamEvent::SendHeaders { end_stream },
            ) {
                Err(c) => r == Err::<(), ErrorCode>(c) && *final(self) == *old(self),
                Ok(ns) => r is Ok && (if ns is Closed {
                    final(self).store.streams@ == old(self).store.streams@.remove(i)
                } else {
                    final(self).store.streams@ == old(self).store.streams@.update(
                        i,
                        Stream {
                            state: ns,
                            ..old(self).store.streams@[i]
                        },
                    )
                }),
            }),
    {
        let idx = match self.store.find(id.value()) {
            Some(i) => i,
            None => {
                return Err(ErrorCode::StreamClosed);
            },
        };
        let st = self.store.streams[idx].state;
        match st.transition(StreamEvent::SendHeaders { end_stream }) {
            Err(c) => Err(c),
            Ok(ns) => {
                if ns.is_terminal() {
                    self.store.remove_at(idx);
                } else {
                    self.store.streams[idx].state = ns;
                }
                Ok(())
            },
        }
    }

    /// Admission check and accounting for sending `n` octets of Data on a
    /// stream.  Both the stream's send window and the connection's must hold
    /// `n` octets; if either is short the send is Blocked and nothing
    /// changes — the caller suspends until a window update arrives.
    pub fn send_data(&mut self, id: StreamId, n: u32, end_stream: bool) -> (r: Result<
        Admission,
        ErrorCode,
    >)
        requires
            old(self).wf(),
        ensures
            final(self).wf(),
            !old(self).store.spec_has_id(id.0) ==> r is Err && *final(self) == *old(self),
            forall|i: int|
                0 <= i < old(self).store.streams@.len() && (#[trigger] old(
                    self,
                ).store.streams@[i]).id.0 == id.0 ==> (match spec_transition(
                old(self).store.streams@[i].state,
                StreamEvent::SendData { end_stream },
            ) {
                Err(c) => r == Err::<Admission, ErrorCode>(c) && *final(self) == *old(self),
                Ok(ns) => if n > old(self).store.streams@[i].send_flow.spec_available() || n > old(
                    self,
                ).send_flow.spec_available() {
                    r == Ok::<Admission, ErrorCode>(Admission::Blocked) && *final(self) == *old(
                        self,
                    )
                } else {
                    &&& r == Ok::<Admission, ErrorCode>(Admission::Admitted)
                    &&& final(self).send_flow.window == old(self).send_flow.window - n
                    &&& (if ns is Closed {
                        final(self).store.streams@ == old(self).store.streams@.remove(i)
                    } else {
                        final(self).store.streams@ == old(self).store.streams@.update(
                            i,
                            Stream {
                                state: ns,
                                send_flow: FlowControl {
                                    window: (old(self).store.streams@[i].send_flow.window
                                        - n) as i32,
                                },
                                ..old(self).store.streams@[i]
                            },
                        )
                    })
                },
            }),
    {
        let idx = match self.store.find(id.value()) {
            Some(i) => i,
            None => {
                return Err(ErrorCode::StreamClosed);
            },
        };
        let st = self.store.streams[idx].state;
        match st.transition(StreamEvent::SendData { end_stream }) {
            Err(c) => Err(c),
            Ok(ns) => {
                if n > self.store.streams[idx].send_flow.available() || n
                    > self.send_flow.available() {
                    return Ok(Admission::Blocked);
                }
                self.send_flow.consume(n);
                self.store.streams[idx].send_flow.consume(n);
                if ns.is_terminal() {
                    self.store.remove_at(idx);
                } else {
                    self.store.streams[idx].state = ns;
                }
                Ok(Admission::Admitted)
            },
        }
    }

    /// Reset a stream locally: it closes at once, its buffered unsent data
    /// is discarded by the caller, and the returned frame tells the peer.
    pub fn reset_stream(&mut self, id: StreamId, code: ErrorCode) -> (r: Result<Frame, ErrorCode>)
        requires
            old(self).wf(),
        ensures
            final(self).wf(),
            !old(self).store.spec_has_id(id.0) ==> r is Err && *final(self) == *old(self),
            forall|i: int|
                0 <= i < old(self).store.streams@.len() && (#[trigger] old(
                    self,
                ).store.streams@[i]).id.0 == id.0 ==> (match spec_transition(
                old(self).store.streams@[i].state,
                StreamEvent::SendReset,
            ) {
                Err(c) => r == Err::<Frame, ErrorCode>(c) && *final(self) == *old(self),
                Ok(_) => r is Ok && final(self).store.streams@ == old(self).store.streams@.remove(i)
                    && (r matches Ok(f) ==> f@ == (FrameV::Reset {
                    stream_id: id.0,
                    error_code: spec_code_value(code),
                })),
            }),
    {
        let idx = match self.store.find(id.value()) {
            Some(i) => i,
            None => {
                return Err(ErrorCode::StreamClosed);
            },
        };
        let st = self.store.streams[idx].state;
        match st.transition(StreamEvent::SendReset) {
            Err(c) => Err(c),
            Ok(_) => {
                self.store.remove_at(idx);
                Ok(Frame::Reset { stream_id: id, error_code: code.value() })
            },
        }
    }

    /// The application has consumed `n` octets of received data on a stream:
    /// give the capacity back before the receive window runs dry, so the
    /// peer is not stalled.  Returns the two WINDOW_UPDATE frames to send,
    /// one for the stream and one for the connection.  Raising either window
    /// past 2^31 - 1 is refused and changes nothing.
    pub fn release_capacity(&mut self, id: StreamId, n: u32) -> (r: Result<(Frame, Frame), ErrorCode>)
        requires
            old(self).wf(),
            0 < n < crate::stream_id::STREAM_ID_LIMIT,
        ensures
            final(self).wf(),
            !old(self).store.spec_has_id(id.0) ==> r == Err::<(Frame, Frame), ErrorCode>(
                ErrorCode::StreamClosed,
            ) && *final(self) == *old(self),
            forall|i: int|
                0 <= i < old(self).store.streams@.len() && (#[trigger] old(
                    self,
                ).store.streams@[i]).id.0 == id.0 ==> {
                    let stream = old(self).store.streams@[i];
                    if stream.recv_flow.window + n > MAX_WINDOW || old(self).recv_flow.window + n
                        > MAX_WINDOW {
                        r == Err::<(Frame, Frame), ErrorCode>(ErrorCode::FlowControlError)
                            && *final(self) == *old(self)
                    } else {
                        &&& (r matches Ok(fs) && fs.0@ == (FrameV::WindowUpdate {
                            stream_id: id.0,
                            size_increment: n,
                        }) && fs.1@ == (FrameV::WindowUpdate { stream_id: 0, size_increment: n }))
                        &&& final(self).recv_flow.window == old(self).recv_flow.window + n
                        &&& final(self).store.streams@ == old(self).store.streams@.update(
                            i,
                            Stream {
                                recv_flow: FlowControl {
                                    window: (stream.recv_flow.window + n) as i32,
                                },
                                ..stream
                            },
                        )
                        &&& final(self).send_flow == old(self).send_flow
                        &&& spec_config_kept(*old(self), *final(self))
                        &&& final(self).store.last_peer_id == old(self).store.last_peer_id
                    }
                },
    {
        let idx = match self.store.find(id.value()) {
            Some(i) => i,
            None => {
                return Err(ErrorCode::StreamClosed);
            },
        };
        let stream_window = self.store.streams[idx].recv_flow.window;
        if stream_window as i64 + n as i64 > MAX_WINDOW as i64 || self.recv_flow.window as i64
            + n as i64 > MAX_WINDOW as i64 {
            return Err(ErrorCode::FlowControlError);
        }
        self.recv_flow.window = self.recv_flow.window + n as i32;
        self.store.streams[idx].recv_flow.window = stream_window + n as i32;
        let for_stream = Frame::WindowUpdate(WindowUpdate::new(id, n));
        let for_connection = Frame::WindowUpdate(WindowUpdate::new(StreamId::zero(), n));
        Ok((for_stream, for_connection))
    }

    /// Announce shutdown: no new streams are accepted after this; in-flight
    /// streams drain.  The returned frame carries the last peer stream id
    /// this side processed.
    pub fn start_goaway(&mut self, code: ErrorCode) -> (r: Frame)
        requires
            old(self).wf(),
        ensures
            final(self).wf(),
            final(self).goaway_sent == Some(old(self).store.last_peer_id),
            final(self).spec_closing(),
            final(self).store == old(self).store,
            final(self).send_flow == old(self).send_flow,
            final(self).recv_flow == old(self).recv_flow,
            r@ == (FrameV::GoAway {
                last_stream_id: old(self).store.last_peer_id,
                error_code: spec_code_value(code),
                debug_data: Seq::<u8>::empty(),
            }),
            r@.wf(),
    {
        self.goaway_sent = Some(self.store.last_peer_id);
        let debug_data: Vec<u8> = Vec::new();
        proof {
            assert(debug_data@ =~= Seq::<u8>::empty());
        }
        Frame::GoAway {
            last_stream_id: StreamId::new(self.store.last_peer_id),
            error_code: code.value(),
            debug_data,
        }
    }
}

/// Apply one settings pair.
pub fn apply_setting(s: ConnSettings, p: (u16, u32)) -> (r: Result<ConnSettings, ErrorCode>)
    ensures
        r == spec_apply_setting(s, p),
{
    if p.0 == SETTING_MAX_CONCURRENT_STREAMS {
        Ok(
            ConnSettings {
                max_concurrent_streams: p.1,
                initial_window_size: s.initial_window_size,
                max_frame_size: s.max_frame_size,
            },
        )
    } else if p.0 == SETTING_INITIAL_WINDOW_SIZE {
        if p.1 > MAX_WINDOW as u32 {
            Err(ErrorCode::FlowControlError)
        } else {
            Ok(
                ConnSettings {
                    max_concurrent_streams: s.max_concurrent_streams,
                    initial_window_size: p.1,
                    max_frame_size: s.max_frame_size,
                },
            )
        }
    } else if p.0 == SETTING_MAX_FRAME_SIZE {
        if p.1 < 16_384 || p.1 >= 0x100_0000 {
            Err(ErrorCode::ProtocolError)
        } else {
            Ok(
                ConnSettings {
                    max_concurrent_streams: s.max_concurrent_streams,
                    initial_window_size: s.initial_window_size,
                    max_frame_size: p.1,
                },
            )
        }
    } else {
        Ok(s)
    }
}

/// Apply a whole SETTINGS payload in order, stopping at the first error.
pub fn fold_settings(s: ConnSettings, pairs: &Vec<(u16, u32)>) -> (r: Result<
    ConnSettings,
    ErrorCode,
>)
    ensures
        r == spec_fold_settings(s, pairs@),
{
    let mut cur = s;
    let mut i: usize = 0;
    proof {
        assert(pairs@.skip(0) =~= pairs@);
    }
    while i < pairs.len()
        invariant
            i <= pairs@.len(),
            spec_fold_settings(s, pairs@) == spec_fold_settings(cur, pairs@.skip(i as int)),
        decreases pairs@.len() - i,
    {
        proof {
            assert(pairs@.skip(i as int)[0] == pairs@[i as int]);
            assert(pairs@.skip(i as int).drop_first() =~= pairs@.skip(i + 1));
        }
        match apply_setting(cur, pairs[i]) {
            Ok(s1) => {
                cur = s1;
            },
            Err(e) => {
                return Err(e);
            },
        }
        i = i + 1;
    }
    Ok(cur)
}

/// Settings that start well formed stay well formed under any payload that
/// folds without error: the fold validates each value it takes.
pub proof fn lemma_fold_settings_wf(s: ConnSettings, ps: Seq<(u16, u32)>)
    requires
        s.wf(),
        spec_fold_settings(s, ps) is Ok,
    ensures
        spec_fold_settings(s, ps)->Ok_0.wf(),
    decreases ps.len(),
{
    if ps.len() > 0 {
        match spec_apply_setting(s, ps[0]) {
            Ok(s1) => {
                lemma_fold_settings_wf(s1, ps.drop_first());
            },
            Err(_) => {},
        }
    }
}

/// The fields of a connection that handling a stream-scoped frame never
/// touches.
pub open spec fn spec_config_kept(a: Connection, b: Connection) -> bool {
    &&& b.store.role == a.store.role
    &&& b.store.closed_cap == a.store.closed_cap
    &&& b.store.max_concurrent == a.store.max_concurrent
    &&& b.store.last_local_id == a.store.last_local_id
    &&& b.local_settings == a.local_settings
    &&& b.remote_settings == a.remote_settings
    &&& b.goaway_sent == a.goaway_sent
    &&& b.goaway_received == a.goaway_received
}

impl Connection {
    /// Route one inbound frame: validate it against the stream state machine
    /// and the flow-control accounting, and say what the application must be
    /// told and what must be sent back.  `Err` is a connection error: the
    /// caller sends GOAWAY with the returned code and closes.  Stream errors
    /// never appear as `Err`: they reset one stream and the connection lives.
    #[verifier::rlimit(100)]
    pub fn recv_frame(&mut self, f: Frame) -> (r: Result<Handled, ConnectionError>)
        requires
            old(self).wf(),
            f@.wf(),
        ensures
            final(self).wf(),
            (match f@ {
                FrameV::Priority { .. } => r == Ok::<Handled, ConnectionError>(
                    Handled { event: None, action: None },
                ) && *final(self) == *old(self),
                FrameV::Unknown { .. } => r == Ok::<Handled, ConnectionError>(
                    Handled { event: None, action: None },
                ) && *final(self) == *old(self),
                FrameV::Continuation { .. } => r == Err::<Handled, ConnectionError>(
                    ConnectionError { code: ErrorCode::ProtocolError },
                ) && *final(self) == *old(self),
                FrameV::Ping { flags, payload } => *final(self) == *old(self) && (if flags % 2
                    == 1 {
                    r == Ok::<Handled, ConnectionError>(
                        Handled { event: Some(Event::PingAcked), action: None },
                    )
                } else {
                    r matches Ok(h) && h.event is None && (h.action matches Some(
                        Action::SendPingAck { payload: p },
                    ) && p@ == payload)
                }),
                FrameV::GoAway { last_stream_id, error_code, .. } => {
                    &&& r matches Ok(h) && h.action is None && (h.event matches Some(
                        Event::GoAwayReceived { last_stream_id: l, code: c },
                    ) && l.0 == last_stream_id && c == crate::error::spec_code_of(error_code))
                    &&& final(self).goaway_received == Some(last_stream_id)
                    &&& final(self).goaway_sent == old(self).goaway_sent
                    &&& final(self).store == old(self).store
                    &&& final(self).send_flow == old(self).send_flow
                    &&& final(self).recv_flow == old(self).recv_flow
                    &&& final(self).local_settings == old(self).local_settings
                    &&& final(self).remote_settings == old(self).remote_settings
                },
                FrameV::WindowUpdate { stream_id: sid, size_increment: inc } => {
                    if sid == 0 {
                        match spec_apply_increment(old(self).send_flow.window as int, inc) {
                            Ok(w) => r == Ok::<Handled, ConnectionError>(
                                Handled {
                                    event: Some(Event::WindowUpdated { id: StreamId(0) }),
                                    action: None,
                                },
                            ) && final(self).send_flow.window == w && final(self).recv_flow == old(
                                self,
                            ).recv_flow && final(self).store == old(self).store
                                && spec_config_kept(*old(self), *final(self)),
                            Err(e) => r == Err::<Handled, ConnectionError>(
                                ConnectionError { code: e },
                            ) && *final(self) == *old(self),
                        }
                    } else if old(self).store.spec_has_id(sid) {
                        forall|i: int|
                            0 <= i < old(self).store.streams@.len() && (#[trigger] old(
                                self,
                            ).store.streams@[i]).id.0 == sid ==> {
                                let stream = old(self).store.streams@[i];
                                &&& spec_config_kept(*old(self), *final(self))
                                &&& final(self).send_flow == old(self).send_flow
                                &&& final(self).recv_flow == old(self).recv_flow
                                &&& final(self).store.last_peer_id == old(self).store.last_peer_id
                                &&& (match spec_apply_increment(
                                    stream.send_flow.window as int,
                                    inc,
                                ) {
                                    Ok(w) => r == Ok::<Handled, ConnectionError>(
                                        Handled {
                                            event: Some(Event::WindowUpdated { id: stream.id }),
                                            action: None,
                                        },
                                    ) && final(self).store.streams@ == old(
                                        self,
                                    ).store.streams@.update(
                                        i,
                                        Stream {
                                            send_flow: FlowControl { window: w as i32 },
                                            ..stream
                                        },
                                    ),
                                    Err(e) => r matches Ok(h) && h.event is None && h.action
                                        == Some(Action::SendReset { id: stream.id, code: e })
                                        && final(self).store.streams@ == old(
                                        self,
                                    ).store.streams@.remove(i),
                                })
                            }
                    } else if sid <= old(self).spec_id_bound(sid) {
                        r == Ok::<Handled, ConnectionError>(Handled { event: None, action: None })
                            && *final(self) == *old(self)
                    } else {
                        r == Err::<Handled, ConnectionError>(
                            ConnectionError { code: ErrorCode::ProtocolError },
                        ) && *final(self) == *old(self)
                    }
                },
                FrameV::Data { stream_id: sid, flags, payload } => {
                    let es = flags % 2 == 1;
                    if old(self).store.spec_has_id(sid) {
                        forall|i: int|
                            0 <= i < old(self).store.streams@.len() && (#[trigger] old(
                                self,
                            ).store.streams@[i]).id.0 == sid ==> {
                                let stream = old(self).store.streams@[i];
                                &&& spec_config_kept(*old(self), *final(self))
                                &&& final(self).send_flow == old(self).send_flow
                                &&& final(self).store.last_peer_id == old(self).store.last_peer_id
                                &&& (match spec_transition(
                                    stream.state,
                                    StreamEvent::RecvData { end_stream: es },
                                ) {
                                    Err(c) => r matches Ok(h) && h.event is None && h.action
                                        == Some(Action::SendReset { id: stream.id, code: c })
                                        && final(self).store.streams@ == old(
                                        self,
                                    ).store.streams@.remove(i) && final(self).recv_flow == old(
                                        self,
                                    ).recv_flow,
                                    Ok(ns) => if payload.len()
                                        > stream.recv_flow.spec_available() || payload.len() > old(
                                        self,
                                    ).recv_flow.spec_available() {
                                        r matches Ok(h) && h.event is None && h.action == Some(
                                            Action::SendReset {
                                                id: stream.id,
                                                code: ErrorCode::FlowControlError,
                                            },
                                        ) && final(self).store.streams@ == old(
                                            self,
                                        ).store.streams@.remove(i) && final(self).recv_flow == old(
                                            self,
                                        ).recv_flow
                                    } else {
                                        &&& r matches Ok(h) && h.action is None && (h.event
                                            matches Some(
                                            Event::DataReceived { id, payload: p, end_stream },
                                        ) && id == stream.id && p@ == payload && end_stream == es)
                                        &&& final(self).recv_flow.window == old(
                                            self,
                                        ).recv_flow.window - payload.len()
                                        &&& (if ns is Closed {
                                            final(self).store.streams@ == old(
                                                self,
                                            ).store.streams@.remove(i)
                                        } else {
                                            final(self).store.streams@ == old(
                                                self,
                                            ).store.streams@.update(
                                                i,
                                                Stream {
                                                    state: ns,
                                                    recv_flow: FlowControl {
                                                        window: (stream.recv_flow.window
                                                            - payload.len()) as i32,
                                                    },
                                                    ..stream
                                                },
                                            )
                                        })
                                    },
                                })
                            }
                    } else if sid <= old(self).spec_id_bound(sid) {
                        r matches Ok(h) && h.event is None && h.action == Some(
                            Action::SendReset {
                                id: StreamId(sid),
                                code: ErrorCode::StreamClosed,
                            },
                        ) && *final(self) == *old(self)
                    } else {
                        r == Err::<Handled, ConnectionError>(
                            ConnectionError { code: ErrorCode::ProtocolError },
                        ) && *final(self) == *old(self)
                    }
                },
                FrameV::Reset { stream_id: sid, error_code } => {
                    if old(self).store.spec_has_id(sid) {
                        forall|i: int|
                            0 <= i < old(self).store.streams@.len() && (#[trigger] old(
                                self,
                            ).store.streams@[i]).id.0 == sid ==> {
                                &&& spec_config_kept(*old(self), *final(self))
                                &&& final(self).send_flow == old(self).send_flow
                                &&& final(self).recv_flow == old(self).recv_flow
                                &&& final(self).store.last_peer_id == old(self).store.last_peer_id
                                &&& r matches Ok(h) && h.action is None && h.event == Some(
                                    Event::StreamReset {
                                        id: old(self).store.streams@[i].id,
                                        code: crate::error::spec_code_of(error_code),
                                    },
                                )
                                &&& final(self).store.streams@ == old(self).store.streams@.remove(
                                    i,
                                )
                            }
                    } else if sid <= old(self).spec_id_bound(sid) {
                        r == Ok::<Handled, ConnectionError>(Handled { event: None, action: None })
                            && *final(self) == *old(self)
                    } else {
                        r == Err::<Handled, ConnectionError>(
                            ConnectionError { code: ErrorCode::ProtocolError },
                        ) && *final(self) == *old(self)
                    }
                },
                FrameV::Headers { stream_id: sid, flags, fragment } => {
                    let es = flags % 2 == 1;
                    if old(self).store.spec_has_id(sid) {
                        forall|i: int|
                            0 <= i < old(self).store.streams@.len() && (#[trigger] old(
                                self,
                            ).store.streams@[i]).id.0 == sid ==> {
                                let stream = old(self).store.streams@[i];
                                &&& spec_config_kept(*old(self), *final(self))
                                &&& final(self).send_flow == old(self).send_flow
                                &&& final(self).recv_flow == old(self).recv_flow
                                &&& final(self).store.last_peer_id == old(self).store.last_peer_id
                                &&& (match spec_transition(
                                    stream.state,
                                    StreamEvent::RecvHeaders { end_stream: es },
                                ) {
                                    Err(c) => r matches Ok(h) && h.event is None && h.action
                                        == Some(Action::SendReset { id: stream.id, code: c })
                                        && final(self).store.streams@ == old(
                                        self,
                                    ).store.streams@.remove(i),
                                    Ok(ns) => {
                                        &&& r matches Ok(h) && h.action is None && (h.event
                                            matches Some(
                                            Event::HeadersReceived {
                                                id,
                                                fragment: p,
                                                end_stream,
                                            },
                                        ) && id == stream.id && p@ == fragment && end_stream == es)
                                        &&& (if ns is Closed {
                                            final(self).store.streams@ == old(
                                                self,
                                            ).store.streams@.remove(i)
                                        } else {
                                            final(self).store.streams@ == old(
                                                self,
                                            ).store.streams@.update(i, Stream { state: ns, ..stream })
                                        })
                                    },
                                })
                            }
                    } else if sid > old(self).spec_id_bound(sid) {
                        if sid % 2 != spec_peer_parity(old(self).store.role) {
                            r == Err::<Handled, ConnectionError>(
                                ConnectionError { code: ErrorCode::ProtocolError },
                            ) && *final(self) == *old(self)
                        } else if old(self).spec_closing() || spec_count_parity(
                            old(self).store.streams@,
                            spec_peer_parity(old(self).store.role),
                        ) >= old(self).store.max_concurrent {
                            r matches Ok(h) && h.event is None && h.action == Some(
                                Action::SendReset {
                                    id: StreamId(sid),
                                    code: ErrorCode::RefusedStream,
                                },
                            ) && *final(self) == *old(self)
                        } else {
                            &&& r matches Ok(h) && h.action is None && (h.event matches Some(
                                Event::StreamOpened { id, fragment: p, end_stream },
                            ) && id.0 == sid && p@ == fragment && end_stream == es)
                            &&& final(self).store.streams@ == old(self).store.streams@.push(
                                Stream {
                                    id: StreamId(sid),
                                    state: (if es {
                                        StreamState::HalfClosedRemote
                                    } else {
                                        StreamState::Open
                                    }),
                                    send_flow: FlowControl {
                                        window: old(
                                            self,
                                        ).remote_settings.initial_window_size as i32,
                                    },
                                    recv_flow: FlowControl {
                                        window: old(self).local_settings.initial_window_size as i32,
                                    },
                                },
                            )
                            &&& final(self).store.last_peer_id == sid
                            &&& spec_config_kept(*old(self), *final(self))
                            &&& final(self).send_flow == old(self).send_flow
                            &&& final(self).recv_flow == old(self).recv_flow
                        }
                    } else if old(self).store.closed_recent@.contains(sid) {
                        r matches Ok(h) && h.event is None && h.action == Some(
                            Action::SendReset {
                                id: StreamId(sid),
                                code: ErrorCode::StreamClosed,
                            },
                        ) && *final(self) == *old(self)
                    } else {
                        r == Err::<Handled, ConnectionError>(
                            ConnectionError { code: ErrorCode::ProtocolError },
                        ) && *final(self) == *old(self)
                    }
                },
                FrameV::Settings { flags, pairs } => {
                    if flags % 2 == 1 {
                        r == Ok::<Handled, ConnectionError>(
                            Handled {
                                event: Some(Event::SettingsReceived { ack: true }),
                                action: None,
                            },
                        ) && *final(self) == *old(self)
                    } else {
                        match spec_fold_settings(old(self).remote_settings, pairs) {
                            Err(e) => r == Err::<Handled, ConnectionError>(
                                ConnectionError { code: e },
                            ) && *final(self) == *old(self),
                            Ok(ns) => {
                                let delta = ns.initial_window_size
                                    - old(self).remote_settings.initial_window_size;
                                if forall|i: int|
                                    0 <= i < old(self).store.streams@.len() ==> -MAX_WINDOW <= (
                                    #[trigger] old(self).store.streams@[i]).send_flow.window + delta
                                        <= MAX_WINDOW {
                                    &&& r == Ok::<Handled, ConnectionError>(
                                        Handled {
                                            event: Some(Event::SettingsReceived { ack: false }),
                                            action: Some(Action::SendSettingsAck),
                                        },
                                    )
                                    &&& final(self).remote_settings == ns
                                    &&& final(self).store.streams@.len() == old(
                                        self,
                                    ).store.streams@.len()
                                    &&& forall|i: int|
                                        0 <= i < old(self).store.streams@.len()
                                            ==> final(self).store.streams@[i] == (Stream {
                                            send_flow: FlowControl {
                                                window: ((#[trigger] old(
                                                    self,
                                                ).store.streams@[i]).send_flow.window
                                                    + delta) as i32,
                                            },
                                            ..old(self).store.streams@[i]
                                        })
                                    &&& final(self).send_flow == old(self).send_flow
                                    &&& final(self).recv_flow == old(self).recv_flow
                                    &&& final(self).local_settings == old(self).local_settings
                                    &&& final(self).goaway_sent == old(self).goaway_sent
                                    &&& final(self).goaway_received == old(self).goaway_received
                                    &&& final(self).store.last_peer_id == old(
                                        self,
                                    ).store.last_peer_id
                                } else {
                                    r == Err::<Handled, ConnectionError>(
                                        ConnectionError { code: ErrorCode::FlowControlError },
                                    ) && *final(self) == *old(self)
                                }
                            },
                        }
                    }
                },
                FrameV::PushPromise { stream_id: sid, promised_id, .. } => {
                    if !old(self).store.spec_has_id(sid) {
                        r == Err::<Handled, ConnectionError>(
                            ConnectionError { code: ErrorCode::ProtocolError },
                        ) && *final(self) == *old(self)
                    } else if promised_id % 2 != spec_peer_parity(old(self).store.role)
                        || promised_id <= old(self).store.last_peer_id {
                        r == Err::<Handled, ConnectionError>(
                            ConnectionError { code: ErrorCode::ProtocolError },
                        ) && *final(self) == *old(self)
                    } else if old(self).spec_closing() || spec_count_parity(
                        old(self).store.streams@,
                        spec_peer_parity(old(self).store.role),
                    ) >= old(self).store.max_concurrent {
                        r matches Ok(h) && h.event is None && h.action == Some(
                            Action::SendReset {
                                id: StreamId(promised_id),
                                code: ErrorCode::RefusedStream,
                            },
                        ) && *final(self) == *old(self)
                    } else {
                        &&& r matches Ok(h) && h.action is None && h.event == Some(
                            Event::PushPromised {
                                id: StreamId(sid),
                                promised_id: StreamId(promised_id),
                            },
                        )
                        &&& final(self).store.streams@ == old(self).store.streams@.push(
                            Stream {
                                id: StreamId(promised_id),
                                state: StreamState::ReservedRemote,
                                send_flow: FlowControl {
                                    window: old(self).remote_settings.initial_window_size as i32,
                                },
                                recv_flow: FlowControl {
                                    window: old(self).local_settings.initial_window_size as i32,
                                },
                            },
                        )
                        &&& final(self).store.last_peer_id == promised_id
                        &&& spec_config_kept(*old(self), *final(self))
                        &&& final(self).send_flow == old(self).send_flow
                        &&& final(self).recv_flow == old(self).recv_flow
                    }
                },
            }),
    {
        match f {
            Frame::Priority { .. } => {
                return Ok(Handled { event: None, action: None });
            },
            Frame::Unknown { .. } => {
                return Ok(Handled { event: None, action: None });
            },
            Frame::Continuation { .. } => {
                return Err(ConnectionError { code: ErrorCode::ProtocolError });
            },
            Frame::Ping { flags, payload } => {
                if flags % 2 == 1 {
                    return Ok(Handled { event: Some(Event::PingAcked), action: None });
                } else {
                    return Ok(
                        Handled { event: None, action: Some(Action::SendPingAck { payload }) },
                    );
                }
            },
            Frame::GoAway { last_stream_id, error_code, .. } => {
                self.goaway_received = Some(last_stream_id.value());
                return Ok(
                    Handled {
                        event: Some(
                            Event::GoAwayReceived {
                                last_stream_id,
                                code: ErrorCode::from_value(error_code),
                            },
                        ),
                        action: None,
                    },
                );
            },
            Frame::WindowUpdate(w) => {
                let sid = w.stream_id();
                let inc = w.size_increment();
                if sid.is_zero() {
                    match self.send_flow.apply_increment(inc) {
                        Ok(_) => {
                            return Ok(
                                Handled {
                                    event: Some(Event::WindowUpdated { id: StreamId(0) }),
                                    action: None,
                                },
                            );
                        },
                        Err(e) => {
                            return Err(ConnectionError { code: e });
                        },
                    }
                } else {
                    match self.store.classify(sid) {
                        IdStatus::Active(i) => {
                            match self.store.streams[i].send_flow.apply_increment(inc) {
                                Ok(_) => {
                                    return Ok(
                                        Handled {
                                            event: Some(
                                                Event::WindowUpdated {
                                                    id: self.store.streams[i].id,
                                                },
                                            ),
                                            action: None,
                                        },
                                    );
                                },
                                Err(e) => {
                                    let id = self.store.streams[i].id;
                                    self.store.remove_at(i);
                                    return Ok(
                                        Handled {
                                            event: None,
                                            action: Some(Action::SendReset { id, code: e }),
                                        },
                                    );
                                },
                            }
                        },
                        IdStatus::RecentlyClosed => {
                            return Ok(Handled { event: None, action: None });
                        },
                        IdStatus::Closed => {
                            return Ok(Handled { event: None, action: None });
                        },
                        IdStatus::Unseen => {
                            return Err(ConnectionError { code: ErrorCode::ProtocolError });
                        },
                    }
                }
            },
            Frame::Data { stream_id, flags, payload } => {
                let es = flags % 2 == 1;
                match self.store.classify(stream_id) {
                    IdStatus::Active(i) => {
                        let st = self.store.streams[i].state;
                        match st.transition(StreamEvent::RecvData { end_stream: es }) {
                            Err(c) => {
                                let id = self.store.streams[i].id;
                                self.store.remove_at(i);
                                return Ok(
                                    Handled {
                                        event: None,
                                        action: Some(Action::SendReset { id, code: c }),
                                    },
                                );
                            },
                            Ok(ns) => {
                                let n = payload.len() as u32;
                                if n > self.store.streams[i].recv_flow.available() || n
                                    > self.recv_flow.available() {
                                    let id = self.store.streams[i].id;
                                    self.store.remove_at(i);
                                    return Ok(
                                        Handled {
                                            event: None,
                                            action: Some(
                                                Action::SendReset {
                                                    id,
                                                    code: ErrorCode::FlowControlError,
                                                },
                                            ),
                                        },
                                    );
                                } else {
                                    self.recv_flow.consume(n);
                                    self.store.streams[i].recv_flow.consume(n);
                                    let id = self.store.streams[i].id;
                                    if ns.is_terminal() {
                                        self.store.remove_at(i);
                                    } else {
                                        self.store.streams[i].state = ns;
                                    }
                                    return Ok(
                                        Handled {
                                            event: Some(
                                                Event::DataReceived {
                                                    id,
                                                    payload,
                                                    end_stream: es,
                                                },
                                            ),
                                            action: None,
                                        },
                                    );
                                }
                            },
                        }
                    },
                    IdStatus::RecentlyClosed | IdStatus::Closed => {
                        return Ok(
                            Handled {
                                event: None,
                                action: Some(
                                    Action::SendReset {
                                        id: stream_id,
                                        code: ErrorCode::StreamClosed,
                                    },
                                ),
                            },
                        );
                    },
                    IdStatus::Unseen => {
                        return Err(ConnectionError { code: ErrorCode::ProtocolError });
                    },
                }
            },
            Frame::Reset { stream_id, error_code } => {
                match self.store.classify(stream_id) {
                    IdStatus::Active(i) => {
                        let id = self.store.streams[i].id;
                        self.store.remove_at(i);
                        return Ok(
                            Handled {
                                event: Some(
                                    Event::StreamReset {
                                        id,
                                        code: ErrorCode::from_value(error_code),
                                    },
                                ),
                                action: None,
                            },
                        );
                    },
                    IdStatus::RecentlyClosed | IdStatus::Closed => {
                        return Ok(Handled { event: None, action: None });
                    },
                    IdStatus::Unseen => {
                        return Err(ConnectionError { code: ErrorCode::ProtocolError });
                    },
                }
            },
            Frame::Headers { stream_id, flags, fragment } => {
                let es = flags % 2 == 1;
                match self.store.classify(stream_id) {
                    IdStatus::Active(i) => {
                        let st = self.store.streams[i].state;
                        match st.transition(StreamEvent::RecvHeaders { end_stream: es }) {
                            Err(c) => {
                                let id = self.store.streams[i].id;
                                self.store.remove_at(i);
                                return Ok(
                                    Handled {
                                        event: None,
                                        action: Some(Action::SendReset { id, code: c }),
                                    },
                                );
                            },
                            Ok(ns) => {
                                let id = self.store.streams[i].id;
                                if ns.is_terminal() {
                                    self.store.remove_at(i);
                                } else {
                                    self.store.streams[i].state = ns;
                                }
                                return Ok(
                                    Handled {
                                        event: Some(
                                            Event::HeadersReceived {
                                                id,
                                                fragment,
                                                end_stream: es,
                                            },
                                        ),
                                        action: None,
                                    },
                                );
                            },
                        }
                    },
                    IdStatus::Unseen => {
                        let parity: u32 = match self.store.role {
                            Role::Client => 0,
                            Role::Server => 1,
                        };
                        if stream_id.value() % 2 != parity {
                            return Err(ConnectionError { code: ErrorCode::ProtocolError });
                        }
                        if self.goaway_sent.is_some() || self.goaway_received.is_some()
                            || self.store.count_peer_streams() >= self.store.max_concurrent
                                as usize {
                            return Ok(
                                Handled {
                                    event: None,
                                    action: Some(
                                        Action::SendReset {
                                            id: stream_id,
                                            code: ErrorCode::RefusedStream,
                                        },
                                    ),
                                },
                            );
                        }
                        match self.store.open_peer(
                            stream_id,
                            self.remote_settings.initial_window_size,
                            self.local_settings.initial_window_size,
                        ) {
                            Ok(i) => {
                                let ns = if es {
                                    StreamState::HalfClosedRemote
                                } else {
                                    StreamState::Open
                                };
                                self.store.streams[i].state = ns;
                                proof {
                                    assert(self.store.streams@ =~= old(self).store.streams@.push(
                                        Stream {
                                            id: stream_id,
                                            state: ns,
                                            send_flow: FlowControl {
                                                window: old(
                                                    self,
                                                ).remote_settings.initial_window_size as i32,
                                            },
                                            recv_flow: FlowControl {
                                                window: old(
                                                    self,
                                                ).local_settings.initial_window_size as i32,
                                            },
                                        },
                                    ));
                                }
                                return Ok(
                                    Handled {
                                        event: Some(
                                            Event::StreamOpened {
                                                id: stream_id,
                                                fragment,
                                                end_stream: es,
                                            },
                                        ),
                                        action: None,
                                    },
                                );
                            },
                            Err(e) => {
                                proof {
                                    assert(parity == spec_peer_parity(self.store.role));
                                    match e {
                                        OpenRefusal::Monotonicity => assert(false),
                                        OpenRefusal::Refused => assert(false),
                                    }
                                }
                                return Err(ConnectionError { code: ErrorCode::ProtocolError });
                            },
                        }
                    },
                    IdStatus::RecentlyClosed => {
                        return Ok(
                            Handled {
                                event: None,
                                action: Some(
                                    Action::SendReset {
                                        id: stream_id,
                                        code: ErrorCode::StreamClosed,
                                    },
                                ),
                            },
                        );
                    },
                    IdStatus::Closed => {
                        return Err(ConnectionError { code: ErrorCode::ProtocolError });
                    },
                }
            },
            Frame::Settings { flags, pairs } => {
                if flags % 2 == 1 {
                    return Ok(
                        Handled {
                            event: Some(Event::SettingsReceived { ack: true }),
                            action: None,
                        },
                    );
                }
                let ns = match fold_settings(self.remote_settings, &pairs) {
                    Ok(ns) => ns,
                    Err(e) => {
                        return Err(ConnectionError { code: e });
                    },
                };
                proof {
                    lemma_fold_settings_wf(old(self).remote_settings, pairs@);
                }
                let old_init = self.remote_settings.initial_window_size;
                let new_init = ns.initial_window_size;
                let ghost delta = new_init - old_init;
                let mut i: usize = 0;
                #[verifier::loop_isolation(false)]
                while i < self.store.streams.len()
                    invariant
                        f@ == (FrameV::Settings { flags, pairs: pairs@ }),
                        spec_fold_settings(old(self).remote_settings, pairs@) == Ok::<
                            ConnSettings,
                            ErrorCode,
                        >(ns),
                        *self == *old(self),
                        i <= self.store.streams@.len(),
                        old(self).wf(),
                        new_init <= MAX_WINDOW,
                        delta == new_init - old_init,
                        forall|j: int|
                            0 <= j < i ==> -MAX_WINDOW <= (#[trigger] self.store.streams@[j]).send_flow.window
                                + delta <= MAX_WINDOW,
                    decreases self.store.streams@.len() - i,
                {
                    let w: i64 = self.store.streams[i].send_flow.window as i64 + new_init as i64
                        - old_init as i64;
                    if w > MAX_WINDOW as i64 || w < -(MAX_WINDOW as i64) {
                        proof {
                            assert(!(-MAX_WINDOW <= old(self).store.streams@[i as int].send_flow.window
                                + delta <= MAX_WINDOW));
                        }
                        return Err(ConnectionError { code: ErrorCode::FlowControlError });
                    }
                    i = i + 1;
                }
                let mut k: usize = 0;
                #[verifier::loop_isolation(false)]
                while k < self.store.streams.len()
                    invariant
                        f@ == (FrameV::Settings { flags, pairs: pairs@ }),
                        spec_fold_settings(old(self).remote_settings, pairs@) == Ok::<
                            ConnSettings,
                            ErrorCode,
                        >(ns),
                        ns.wf(),
                        new_init == ns.initial_window_size,
                        k <= self.store.streams@.len(),
                        old(self).wf(),
                        new_init <= MAX_WINDOW,
                        old_init == old(self).remote_settings.initial_window_size,
                        delta == new_init - old_init,
                        self.store.streams@.len() == old(self).store.streams@.len(),
                        forall|j: int|
                            0 <= j < old(self).store.streams@.len() ==> -MAX_WINDOW <= (
                            #[trigger] old(self).store.streams@[j]).send_flow.window + delta
                                <= MAX_WINDOW,
                        forall|j: int|
                            k <= j < old(self).store.streams@.len() ==> (
                            #[trigger] self.store.streams@[j]) == old(self).store.streams@[j],
                        forall|j: int|
                            0 <= j < k ==> (#[trigger] self.store.streams@[j]) == (Stream {
                                send_flow: FlowControl {
                                    window: (old(self).store.streams@[j].send_flow.window
                                        + delta) as i32,
                                },
                                ..old(self).store.streams@[j]
                            }),
                        self.store.role == old(self).store.role,
                        self.store.closed_recent == old(self).store.closed_recent,
                        self.store.closed_cap == old(self).store.closed_cap,
                        self.store.last_peer_id == old(self).store.last_peer_id,
                        self.store.last_local_id == old(self).store.last_local_id,
                        self.store.max_concurrent == old(self).store.max_concurrent,
                        self.send_flow == old(self).send_flow,
                        self.recv_flow == old(self).recv_flow,
                        self.local_settings == old(self).local_settings,
                        self.remote_settings == old(self).remote_settings,
                        self.goaway_sent == old(self).goaway_sent,
                        self.goaway_received == old(self).goaway_received,
                    decreases self.store.streams@.len() - k,
                {
                    let w: i64 = self.store.streams[k].send_flow.window as i64 + new_init as i64
                        - old_init as i64;
                    self.store.streams[k].send_flow.window = w as i32;
                    k = k + 1;
                }
                proof {
                    assert(self.store.wf()) by {
                        assert forall|j: int| 0 <= j < self.store.streams@.len() implies (
                        #[trigger] self.store.streams@[j]).wf() by {
                            assert(old(self).store.streams@[j].wf());
                        }
                        assert forall|a: int, b: int|
                            0 <= a < b < self.store.streams@.len() implies (
                        #[trigger] self.store.streams@[a]).id.0 != (
                        #[trigger] self.store.streams@[b]).id.0 by {
                            assert(old(self).store.streams@[a].id.0 != old(
                                self,
                            ).store.streams@[b].id.0);
                        }
                        assert forall|j: int| 0 <= j < self.store.streams@.len() implies (
                        #[trigger] self.store.streams@[j]).id.0 <= (
                        if self.store.streams@[j].id.0 % 2 == spec_peer_parity(self.store.role) {
                            self.store.last_peer_id
                        } else {
                            self.store.last_local_id
                        }) by {
                            assert(old(self).store.streams@[j].id.0 <= (if old(
                                self,
                            ).store.streams@[j].id.0 % 2 == spec_peer_parity(old(self).store.role) {
                                old(self).store.last_peer_id
                            } else {
                                old(self).store.last_local_id
                            }));
                        }
                    }
                }
                self.remote_settings = ns;
                return Ok(
                    Handled {
                        event: Some(Event::SettingsReceived { ack: false }),
                        action: Some(Action::SendSettingsAck),
                    },
                );
            },
            Frame::PushPromise { stream_id, promised_id, .. } => {
                let carrier = match self.store.find(stream_id.value()) {
                    Some(i) => i,
                    None => {
                        return Err(ConnectionError { code: ErrorCode::ProtocolError });
                    },
                };
                let parity: u32 = match self.store.role {
                    Role::Client => 0,
                    Role::Server => 1,
                };
                if promised_id.value() % 2 != parity || promised_id.value()
                    <= self.store.last_peer_id {
                    return Err(ConnectionError { code: ErrorCode::ProtocolError });
                }
                if self.goaway_sent.is_some() || self.goaway_received.is_some()
                    || self.store.count_peer_streams() >= self.store.max_concurrent as usize {
                    return Ok(
                        Handled {
                            event: None,
                            action: Some(
                                Action::SendReset {
                                    id: promised_id,
                                    code: ErrorCode::RefusedStream,
                                },
                            ),
                        },
                    );
                }
                match self.store.open_peer(
                    promised_id,
                    self.remote_settings.initial_window_size,
                    self.local_settings.initial_window_size,
                ) {
                    Ok(i) => {
                        self.store.streams[i].state = StreamState::ReservedRemote;
                        proof {
                            assert(self.store.streams@ =~= old(self).store.streams@.push(
                                Stream {
                                    id: promised_id,
                                    state: StreamState::ReservedRemote,
                                    send_flow: FlowControl {
                                        window: old(
                                            self,
                                        ).remote_settings.initial_window_size as i32,
                                    },
                                    recv_flow: FlowControl {
                                        window: old(
                                            self,
                                        ).local_settings.initial_window_size as i32,
                                    },
                                },
                            ));
                        }
                        return Ok(
                            Handled {
                                event: Some(
                                    Event::PushPromised { id: stream_id, promised_id },
                                ),
                                action: None,
                            },
                        );
                    },
                    Err(e) => {
                        proof {
                            assert(parity == spec_peer_parity(self.store.role));
                            match e {
                                OpenRefusal::Monotonicity => assert(false),
                                OpenRefusal::Refused => assert(false),
                            }
                        }
                        return Err(ConnectionError { code: ErrorCode::ProtocolError });
                    },
                }
            },
        }
    }
}

} // verus!
