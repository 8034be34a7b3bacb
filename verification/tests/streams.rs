use muxcore::conn::{Action, Admission, ConnSettings, Connection, Event, Handled};
use muxcore::error::{ConnectionError, ErrorCode};
use muxcore::frame::Frame;
use muxcore::state::{StreamEvent, StreamState};
use muxcore::store::Role;
use muxcore::stream_id::StreamId;
use muxcore::window_update::WindowUpdate;

fn client() -> Connection {
    Connection::new(Role::Client, ConnSettings::initial())
}

fn server_with_limit(limit: u32) -> Connection {
    Connection::new(
        Role::Server,
        ConnSettings {
            max_concurrent_streams: limit,
            initial_window_size: 65_535,
            max_frame_size: 16_384,
        },
    )
}

fn headers(id: u32, end_stream: bool) -> Frame {
    Frame::Headers {
        stream_id: StreamId::new(id),
        flags: if end_stream { 1 } else { 0 },
        fragment: Vec::new(),
    }
}

fn data(id: u32, bytes: Vec<u8>, end_stream: bool) -> Frame {
    Frame::Data {
        stream_id: StreamId::new(id),
        flags: if end_stream { 1 } else { 0 },
        payload: bytes,
    }
}

#[test]
fn stream_closed_after_end_stream_both_ways() {
    // Open stream 3 by opening twice: local client ids go 1, 3.
    let mut c = client();
    assert_eq!(c.open_stream().unwrap().value(), 1);
    let id = c.open_stream().unwrap();
    assert_eq!(id.value(), 3);
    // Send Headers+END_STREAM, then receive Headers+END_STREAM.
    c.send_headers(id, true).unwrap();
    let h = c.recv_frame(headers(3, true)).unwrap();
    assert_eq!(
        h.event,
        Some(Event::HeadersReceived {
            id,
            fragment: Vec::new(),
            end_stream: true,
        })
    );
    // Both directions done: a later Data frame is a stream error, not an
    // event for the application, and the connection lives.
    let h = c.recv_frame(data(3, vec![1, 2, 3], false)).unwrap();
    assert_eq!(h.event, None);
    assert_eq!(
        h.action,
        Some(Action::SendReset {
            id,
            code: ErrorCode::StreamClosed,
        })
    );
}

#[test]
fn blocked_send_proceeds_after_connection_window_update() {
    let mut c = client();
    // The peer raises its initial stream window above the connection window,
    // so the connection window is what runs out first.
    let settings = Frame::Settings {
        flags: 0,
        pairs: vec![(4, 70_000)],
    };
    c.recv_frame(settings).unwrap();
    let id = c.open_stream().unwrap();
    c.send_headers(id, false).unwrap();
    // Drain the connection send window (65535 octets) exactly.
    assert_eq!(c.send_data(id, 65_535, false).unwrap(), Admission::Admitted);
    // The connection window is now 0: the next send suspends.
    assert_eq!(c.send_data(id, 1, false).unwrap(), Admission::Blocked);
    // A connection-level WINDOW_UPDATE of 100 arrives.
    let h = c
        .recv_frame(Frame::WindowUpdate(WindowUpdate::new(StreamId::new(0), 100)))
        .unwrap();
    assert_eq!(h.event, Some(Event::WindowUpdated { id: StreamId::new(0) }));
    // The suspended send is admissible now.
    assert_eq!(c.send_data(id, 100, false).unwrap(), Admission::Admitted);
    // And the windows are spent again.
    assert_eq!(c.send_data(id, 1, false).unwrap(), Admission::Blocked);
}

#[test]
fn second_concurrent_stream_is_refused_connection_lives() {
    let mut s = server_with_limit(1);
    // First peer-initiated stream is accepted.
    let h = s.recv_frame(headers(1, false)).unwrap();
    assert_eq!(
        h.event,
        Some(Event::StreamOpened {
            id: StreamId::new(1),
            fragment: Vec::new(),
            end_stream: false,
        })
    );
    // The second simultaneous stream exceeds SETTINGS_MAX_CONCURRENT_STREAMS.
    let h = s.recv_frame(headers(3, false)).unwrap();
    assert_eq!(h.event, None);
    assert_eq!(
        h.action,
        Some(Action::SendReset {
            id: StreamId::new(3),
            code: ErrorCode::RefusedStream,
        })
    );
    // The connection remains usable: data still flows on stream 1.
    let h = s.recv_frame(data(1, vec![42], false)).unwrap();
    assert_eq!(
        h.event,
        Some(Event::DataReceived {
            id: StreamId::new(1),
            payload: vec![42],
            end_stream: false,
        })
    );
}

#[test]
fn out_of_order_new_stream_is_a_connection_error() {
    let mut s = server_with_limit(100);
    s.recv_frame(headers(5, false)).unwrap();
    // A new-stream Headers frame below the highest id seen from the peer.
    let r = s.recv_frame(headers(3, false));
    assert_eq!(
        r,
        Err(ConnectionError {
            code: ErrorCode::ProtocolError,
        })
    );
}

#[test]
fn peer_ids_must_use_peer_parity() {
    let mut s = server_with_limit(100);
    // The peer of a server initiates odd ids only.
    let r = s.recv_frame(headers(2, false));
    assert_eq!(
        r,
        Err(ConnectionError {
            code: ErrorCode::ProtocolError,
        })
    );
}

#[test]
fn transition_table_walk() {
    let open = StreamState::Idle
        .transition(StreamEvent::SendHeaders { end_stream: false })
        .unwrap();
    assert_eq!(open, StreamState::Open);
    let half = open
        .transition(StreamEvent::SendData { end_stream: true })
        .unwrap();
    assert_eq!(half, StreamState::HalfClosedLocal);
    let closed = half
        .transition(StreamEvent::RecvData { end_stream: true })
        .unwrap();
    assert_eq!(closed, StreamState::Closed);
    // Closed accepts no further data, in either direction.
    assert_eq!(
        closed.transition(StreamEvent::RecvData { end_stream: false }),
        Err(ErrorCode::StreamClosed)
    );
    assert_eq!(
        closed.transition(StreamEvent::SendData { end_stream: false }),
        Err(ErrorCode::StreamClosed)
    );
    // The grace period: a late reset or window update is tolerated.
    assert_eq!(closed.transition(StreamEvent::RecvReset), Ok(StreamState::Closed));
    assert_eq!(
        closed.transition(StreamEvent::RecvWindowUpdate),
        Ok(StreamState::Closed)
    );
    // A reset forces Closed from any live state.
    assert_eq!(
        StreamState::Open.transition(StreamEvent::RecvReset),
        Ok(StreamState::Closed)
    );
}

#[test]
fn ping_is_answered_with_identical_payload() {
    let mut c = client();
    let h = c
        .recv_frame(Frame::Ping {
            flags: 0,
            payload: vec![9, 8, 7, 6, 5, 4, 3, 2],
        })
        .unwrap();
    assert_eq!(h.event, None);
    assert_eq!(
        h.action,
        Some(Action::SendPingAck {
            payload: vec![9, 8, 7, 6, 5, 4, 3, 2],
        })
    );
    // An ACK of our own ping produces an event and no reply.
    let h = c
        .recv_frame(Frame::Ping {
            flags: 1,
            payload: vec![0; 8],
        })
        .unwrap();
    assert_eq!(h, Handled { event: Some(Event::PingAcked), action: None });
}

#[test]
fn settings_shift_existing_stream_windows() {
    let mut c = client();
    let id = c.open_stream().unwrap();
    c.send_headers(id, false).unwrap();
    // The stream's send window starts at the peer's initial 65535.
    assert_eq!(c.send_data(id, 60_000, false).unwrap(), Admission::Admitted);
    // The peer shrinks its initial window to 100: the stream has overspent
    // and must wait, though the connection window still has capacity.
    let h = c
        .recv_frame(Frame::Settings {
            flags: 0,
            pairs: vec![(4, 100)],
        })
        .unwrap();
    assert_eq!(h.event, Some(Event::SettingsReceived { ack: false }));
    assert_eq!(h.action, Some(Action::SendSettingsAck));
    assert_eq!(c.send_data(id, 1, false).unwrap(), Admission::Blocked);
}

#[test]
fn settings_window_above_maximum_is_a_flow_control_error() {
    let mut c = client();
    let r = c.recv_frame(Frame::Settings {
        flags: 0,
        pairs: vec![(4, 0x8000_0000)],
    });
    assert_eq!(
        r,
        Err(ConnectionError {
            code: ErrorCode::FlowControlError,
        })
    );
}

#[test]
fn goaway_stops_new_streams() {
    let mut c = client();
    let h = c
        .recv_frame(Frame::GoAway {
            last_stream_id: StreamId::new(0),
            error_code: 0,
            debug_data: Vec::new(),
        })
        .unwrap();
    assert_eq!(
        h.event,
        Some(Event::GoAwayReceived {
            last_stream_id: StreamId::new(0),
            code: ErrorCode::NoError,
        })
    );
    assert_eq!(c.open_stream(), Err(ErrorCode::RefusedStream));
}

#[test]
fn connection_window_overflow_is_fatal() {
    let mut c = client();
    let r = c.recv_frame(Frame::WindowUpdate(WindowUpdate::new(
        StreamId::new(0),
        0x7FFF_FFFF,
    )));
    assert_eq!(
        r,
        Err(ConnectionError {
            code: ErrorCode::FlowControlError,
        })
    );
}

#[test]
fn stream_window_overflow_resets_only_that_stream() {
    let mut s = server_with_limit(100);
    s.recv_frame(headers(1, false)).unwrap();
    let h = s
        .recv_frame(Frame::WindowUpdate(WindowUpdate::new(
            StreamId::new(1),
            0x7FFF_FFFF,
        )))
        .unwrap();
    assert_eq!(h.event, None);
    assert_eq!(
        h.action,
        Some(Action::SendReset {
            id: StreamId::new(1),
            code: ErrorCode::FlowControlError,
        })
    );
    // The connection still accepts a new stream afterwards.
    let h = s.recv_frame(headers(3, false)).unwrap();
    assert_eq!(
        h.event,
        Some(Event::StreamOpened {
            id: StreamId::new(3),
            fragment: Vec::new(),
            end_stream: false,
        })
    );
}

#[test]
fn reset_frame_closes_the_stream() {
    let mut s = server_with_limit(100);
    s.recv_frame(headers(1, false)).unwrap();
    let h = s
        .recv_frame(Frame::Reset {
            stream_id: StreamId::new(1),
            error_code: 8,
        })
        .unwrap();
    assert_eq!(
        h.event,
        Some(Event::StreamReset {
            id: StreamId::new(1),
            code: ErrorCode::Cancel,
        })
    );
    // A second reset for the now-absent stream is absorbed silently.
    let h = s
        .recv_frame(Frame::Reset {
            stream_id: StreamId::new(1),
            error_code: 8,
        })
        .unwrap();
    assert_eq!(h, Handled { event: None, action: None });
}

#[test]
fn start_goaway_reports_last_peer_stream() {
    let mut s = server_with_limit(100);
    s.recv_frame(headers(1, false)).unwrap();
    let f = s.start_goaway(ErrorCode::NoError);
    assert_eq!(
        f,
        Frame::GoAway {
            last_stream_id: StreamId::new(1),
            error_code: 0,
            debug_data: Vec::new(),
        }
    );
    // No new peer stream is accepted while shutting down.
    let h = s.recv_frame(headers(3, false)).unwrap();
    assert_eq!(
        h.action,
        Some(Action::SendReset {
            id: StreamId::new(3),
            code: ErrorCode::RefusedStream,
        })
    );
}

#[test]
fn priority_and_unknown_frames_are_absorbed() {
    let mut s = server_with_limit(100);
    let h = s
        .recv_frame(Frame::Priority {
            stream_id: StreamId::new(1),
            payload: vec![0, 0, 0, 0, 16],
        })
        .unwrap();
    assert_eq!(h, Handled { event: None, action: None });
    let h = s
        .recv_frame(Frame::Unknown {
            kind: 0x42,
            stream_id: StreamId::new(1),
            flags: 0,
            payload: vec![1],
        })
        .unwrap();
    assert_eq!(h, Handled { event: None, action: None });
}

#[test]
fn bare_continuation_is_a_connection_error() {
    let mut s = server_with_limit(100);
    let r = s.recv_frame(Frame::Continuation {
        stream_id: StreamId::new(1),
        flags: 4,
        fragment: Vec::new(),
    });
    assert_eq!(
        r,
        Err(ConnectionError {
            code: ErrorCode::ProtocolError,
        })
    );
}

#[test]
fn push_promise_reserves_the_promised_stream() {
    // A client receives a push promise on its own open stream.
    let mut c = client();
    let id = c.open_stream().unwrap();
    c.send_headers(id, false).unwrap();
    c.recv_frame(headers(1, false)).unwrap();
    let h = c
        .recv_frame(Frame::PushPromise {
            stream_id: StreamId::new(1),
            flags: 4,
            promised_id: StreamId::new(2),
            fragment: Vec::new(),
        })
        .unwrap();
    assert_eq!(
        h.event,
        Some(Event::PushPromised {
            id: StreamId::new(1),
            promised_id: StreamId::new(2),
        })
    );
    // A second promise of the same even id would run backwards: fatal.
    let r = c.recv_frame(Frame::PushPromise {
        stream_id: StreamId::new(1),
        flags: 4,
        promised_id: StreamId::new(2),
        fragment: Vec::new(),
    });
    assert_eq!(
        r,
        Err(ConnectionError {
            code: ErrorCode::ProtocolError,
        })
    );
}

#[test]
fn data_on_a_never_opened_stream_is_fatal() {
    let mut s = server_with_limit(100);
    let r = s.recv_frame(data(9, vec![1], false));
    assert_eq!(
        r,
        Err(ConnectionError {
            code: ErrorCode::ProtocolError,
        })
    );
}

#[test]
fn inbound_data_beyond_receive_window_resets_stream() {
    // Local initial window of 10 octets: an 11-octet chunk overruns it.
    let mut s = Connection::new(
        Role::Server,
        ConnSettings {
            max_concurrent_streams: 8,
            initial_window_size: 10,
            max_frame_size: 16_384,
        },
    );
    s.recv_frame(headers(1, false)).unwrap();
    let h = s.recv_frame(data(1, vec![0; 11], false)).unwrap();
    assert_eq!(h.event, None);
    assert_eq!(
        h.action,
        Some(Action::SendReset {
            id: StreamId::new(1),
            code: ErrorCode::FlowControlError,
        })
    );
}

#[test]
fn consumed_data_releases_capacity_to_the_peer() {
    let mut s = server_with_limit(8);
    s.recv_frame(headers(1, false)).unwrap();
    s.recv_frame(data(1, vec![0; 1_000], false)).unwrap();
    // The application has read those octets: the engine hands back two
    // window updates, one per scope.
    let (for_stream, for_conn) = s
        .release_capacity(StreamId::new(1), 1_000)
        .unwrap();
    assert_eq!(
        for_stream,
        Frame::WindowUpdate(WindowUpdate::new(StreamId::new(1), 1_000))
    );
    assert_eq!(
        for_conn,
        Frame::WindowUpdate(WindowUpdate::new(StreamId::new(0), 1_000))
    );
    // Releasing more than the window could ever hold is refused.
    let r = s.release_capacity(StreamId::new(1), 0x7FFF_FFFF);
    assert_eq!(r, Err(ErrorCode::FlowControlError));
}
