use muxcore::error::FrameError;
use muxcore::preface::{check_preface, preface_bytes, PrefaceCheck};
use muxcore::frame::Frame;
use muxcore::head::{Head, Kind};
use muxcore::stream_id::StreamId;
use muxcore::window_update::WindowUpdate;

fn decode_one(bytes: &[u8]) -> (Frame, usize) {
    Frame::decode(bytes, 16_384).unwrap().unwrap()
}

fn round_trips(f: Frame) {
    let mut bytes: Vec<u8> = Vec::new();
    f.encode(&mut bytes);
    let (g, n) = decode_one(&bytes);
    assert_eq!(n, bytes.len());
    assert_eq!(g, f);
}

#[test]
fn decode_window_update_wire_sample() {
    let bytes: Vec<u8> = vec![
        0x00, 0x00, 0x04, 0x08, 0x00, 0x00, 0x00, 0x00, 0x01, 0x00, 0x00, 0x00, 0x10,
    ];
    let (f, n) = decode_one(&bytes);
    assert_eq!(n, 13);
    match f {
        Frame::WindowUpdate(w) => {
            assert_eq!(w.stream_id().value(), 1);
            assert_eq!(w.size_increment(), 16);
        },
        other => panic!("expected a WINDOW_UPDATE, got {:?}", other),
    }
}

#[test]
fn encode_window_update_wire_sample() {
    let w = WindowUpdate::new(StreamId::new(1), 16);
    let mut bytes: Vec<u8> = Vec::new();
    w.encode(&mut bytes);
    assert_eq!(
        bytes,
        vec![0x00, 0x00, 0x04, 0x08, 0x00, 0x00, 0x00, 0x00, 0x01, 0x00, 0x00, 0x00, 0x10]
    );
}

#[test]
fn load_rejects_wrong_payload_size() {
    let head = Head::new(Kind::WindowUpdate, 0, StreamId::new(1));
    let r = WindowUpdate::load(head, &[0, 0, 16]);
    assert_eq!(r, Err(FrameError::BadFrameSize));
}

#[test]
fn load_rejects_zero_increment() {
    let head = Head::new(Kind::WindowUpdate, 0, StreamId::new(1));
    let r = WindowUpdate::load(head, &[0, 0, 0, 0]);
    assert_eq!(r, Err(FrameError::InvalidWindowUpdateValue));
    // A payload that is only the reserved top bit is still a zero increment.
    let r = WindowUpdate::load(head, &[0x80, 0, 0, 0]);
    assert_eq!(r, Err(FrameError::InvalidWindowUpdateValue));
}

#[test]
fn load_clears_reserved_top_bit() {
    let head = Head::new(Kind::WindowUpdate, 0, StreamId::new(1));
    let w = WindowUpdate::load(head, &[0x80, 0, 0, 0x10]).unwrap();
    assert_eq!(w.size_increment(), 16);
}

#[test]
fn decode_clears_reserved_stream_id_bit() {
    // Stream id 0x80000001 on the wire reads back as 1.
    let bytes: Vec<u8> = vec![0, 0, 4, 8, 0, 0x80, 0, 0, 1, 0, 0, 0, 0x10];
    let (f, _) = decode_one(&bytes);
    match f {
        Frame::WindowUpdate(w) => assert_eq!(w.stream_id().value(), 1),
        other => panic!("expected a WINDOW_UPDATE, got {:?}", other),
    }
}

#[test]
fn short_buffer_asks_for_more_bytes() {
    let bytes: Vec<u8> = vec![0, 0, 4, 8, 0, 0, 0, 0];
    assert_eq!(Frame::decode(&bytes, 16_384).unwrap(), None);
    // A full header announcing four octets of payload that never arrived.
    let bytes: Vec<u8> = vec![0, 0, 4, 8, 0, 0, 0, 0, 1, 0, 0];
    assert_eq!(Frame::decode(&bytes, 16_384).unwrap(), None);
}

#[test]
fn oversized_frame_is_rejected() {
    let mut bytes: Vec<u8> = vec![0, 0x41, 0, 0, 0, 0, 0, 0, 1];
    bytes.resize(9 + 0x4100, 0);
    assert_eq!(Frame::decode(&bytes, 16_384), Err(FrameError::FrameTooLarge));
}

#[test]
fn data_on_stream_zero_is_rejected() {
    let bytes: Vec<u8> = vec![0, 0, 1, 0, 0, 0, 0, 0, 0, 0xAB];
    assert_eq!(Frame::decode(&bytes, 16_384), Err(FrameError::InvalidStreamId));
}

#[test]
fn ping_payload_must_be_eight_octets() {
    let bytes: Vec<u8> = vec![0, 0, 4, 6, 0, 0, 0, 0, 0, 1, 2, 3, 4];
    assert_eq!(Frame::decode(&bytes, 16_384), Err(FrameError::BadFrameSize));
}

#[test]
fn round_trip_every_kind() {
    round_trips(Frame::Data {
        stream_id: StreamId::new(1),
        flags: 1,
        payload: vec![1, 2, 3],
    });
    round_trips(Frame::Headers {
        stream_id: StreamId::new(3),
        flags: 5,
        fragment: vec![0x88, 0x82],
    });
    round_trips(Frame::Priority {
        stream_id: StreamId::new(5),
        payload: vec![0, 0, 0, 1, 16],
    });
    round_trips(Frame::Reset {
        stream_id: StreamId::new(7),
        error_code: 8,
    });
    round_trips(Frame::Settings {
        flags: 0,
        pairs: vec![(3, 100), (4, 65_535), (99, 7)],
    });
    round_trips(Frame::PushPromise {
        stream_id: StreamId::new(9),
        flags: 4,
        promised_id: StreamId::new(10),
        fragment: vec![0x82],
    });
    round_trips(Frame::Ping {
        flags: 0,
        payload: vec![1, 2, 3, 4, 5, 6, 7, 8],
    });
    round_trips(Frame::GoAway {
        last_stream_id: StreamId::new(5),
        error_code: 2,
        debug_data: vec![b'b', b'y', b'e'],
    });
    round_trips(Frame::WindowUpdate(WindowUpdate::new(StreamId::new(0), 100)));
    round_trips(Frame::Continuation {
        stream_id: StreamId::new(11),
        flags: 4,
        fragment: vec![0x86],
    });
    round_trips(Frame::Unknown {
        kind: 0x42,
        stream_id: StreamId::new(13),
        flags: 0xFF,
        payload: vec![9, 9],
    });
}

#[test]
fn settings_encoding_is_exact() {
    let f = Frame::Settings {
        flags: 0,
        pairs: vec![(4, 70_000)],
    };
    let mut bytes: Vec<u8> = Vec::new();
    f.encode(&mut bytes);
    // 6-octet payload: id 4, value 70000 = 0x00011170.
    assert_eq!(
        bytes,
        vec![0, 0, 6, 4, 0, 0, 0, 0, 0, 0, 4, 0x00, 0x01, 0x11, 0x70]
    );
}

#[test]
fn unknown_kind_is_preserved_not_rejected() {
    let bytes: Vec<u8> = vec![0, 0, 2, 0x42, 7, 0, 0, 0, 3, 0xAA, 0xBB];
    let (f, n) = decode_one(&bytes);
    assert_eq!(n, 11);
    assert_eq!(
        f,
        Frame::Unknown {
            kind: 0x42,
            stream_id: StreamId::new(3),
            flags: 7,
            payload: vec![0xAA, 0xBB],
        }
    );
}

#[test]
fn preface_is_checked_exactly() {
    let good = preface_bytes();
    assert_eq!(good.len(), 24);
    assert_eq!(good, b"PRI * HTTP/2.0\r\n\r\nSM\r\n\r\n".to_vec());
    assert_eq!(check_preface(&good), PrefaceCheck::Valid);
    assert_eq!(check_preface(&good[..10]), PrefaceCheck::NeedMore);
    let mut bad = good.clone();
    bad[0] = b'X';
    assert_eq!(check_preface(&bad), PrefaceCheck::Invalid);
}
