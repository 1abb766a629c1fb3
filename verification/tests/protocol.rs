use desktop_tui::protocol::{decode, decode_payload, encode, stream_end_outcome, CodecError,
    FrameOutcome, Message};

#[test]
fn roundtrip_data_empty() {
    let msg = Message::Data(vec![]);
    let frame = encode(&msg).unwrap();
    assert_eq!(decode(&frame), FrameOutcome::Frame(Message::Data(vec![]), frame.len()));
}

#[test]
fn roundtrip_data_binary() {
    let payload: Vec<u8> = vec![0x00, 0xff, 0x1b, 0x5b, 0x00, 0x80, 0x7f, 0x0a];
    let msg = Message::Data(payload.clone());
    let frame = encode(&msg).unwrap();
    assert_eq!(decode(&frame), FrameOutcome::Frame(Message::Data(payload), frame.len()));
}

#[test]
fn roundtrip_data_large() {
    let payload: Vec<u8> = (0..100_000u32).map(|i| (i % 251) as u8).collect();
    let msg = Message::Data(payload.clone());
    let frame = encode(&msg).unwrap();
    assert_eq!(frame.len(), 4 + 1 + payload.len());
    assert_eq!(decode(&frame), FrameOutcome::Frame(Message::Data(payload), frame.len()));
}

#[test]
fn roundtrip_resize_boundaries() {
    for (cols, rows) in [(0u16, 0u16), (1, 1), (100, 40), (65535, 65535), (65535, 0)] {
        let msg = Message::Resize { cols, rows };
        let frame = encode(&msg).unwrap();
        assert_eq!(decode(&frame), FrameOutcome::Frame(Message::Resize { cols, rows }, frame.len()));
    }
}

#[test]
fn roundtrip_detach() {
    let frame = encode(&Message::Detach).unwrap();
    assert_eq!(decode(&frame), FrameOutcome::Frame(Message::Detach, frame.len()));
}

#[test]
fn roundtrip_shutdown() {
    let frame = encode(&Message::Shutdown).unwrap();
    assert_eq!(decode(&frame), FrameOutcome::Frame(Message::Shutdown, frame.len()));
}

#[test]
fn encoded_bytes_are_exact() {
    assert_eq!(encode(&Message::Data(vec![0xab])).unwrap(), vec![0, 0, 0, 2, 0, 0xab]);
    assert_eq!(
        encode(&Message::Resize { cols: 0x0102, rows: 0x0304 }).unwrap(),
        vec![0, 0, 0, 5, 1, 1, 2, 3, 4]
    );
    assert_eq!(encode(&Message::Detach).unwrap(), vec![0, 0, 0, 1, 2]);
    assert_eq!(encode(&Message::Shutdown).unwrap(), vec![0, 0, 0, 1, 3]);
}

#[test]
fn truncated_frames_need_more() {
    let frame = encode(&Message::Data(vec![1, 2, 3, 4, 5])).unwrap();
    for cut in 0..frame.len() {
        assert_eq!(decode(&frame[..cut]), FrameOutcome::NeedMore);
    }
}

#[test]
fn truncated_length_field_needs_more() {
    assert_eq!(decode(&[]), FrameOutcome::NeedMore);
    assert_eq!(decode(&[0]), FrameOutcome::NeedMore);
    assert_eq!(decode(&[0, 0, 0]), FrameOutcome::NeedMore);
}

#[test]
fn advertised_length_without_payload_needs_more() {
    // A frame that promises 100 bytes but delivers 2: still waiting, never
    // a message, never a crash.
    assert_eq!(decode(&[0, 0, 0, 100, 0, 1]), FrameOutcome::NeedMore);
}

#[test]
fn stream_end_inside_frame_is_truncated() {
    assert_eq!(stream_end_outcome(&[0, 0, 0, 100, 0, 1]), Err(CodecError::Truncated));
    assert_eq!(stream_end_outcome(&[0]), Err(CodecError::Truncated));
    assert_eq!(stream_end_outcome(&[]), Ok(()));
}

#[test]
fn unknown_tag_is_malformed() {
    assert_eq!(decode(&[0, 0, 0, 1, 9]), FrameOutcome::Malformed);
    assert!(matches!(decode_payload(&[7, 1, 2]), Err(CodecError::Malformed)));
}

#[test]
fn empty_payload_is_malformed() {
    assert_eq!(decode(&[0, 0, 0, 0]), FrameOutcome::Malformed);
}

#[test]
fn wrong_length_resize_is_malformed() {
    assert_eq!(decode(&[0, 0, 0, 3, 1, 0, 50]), FrameOutcome::Malformed);
    assert_eq!(decode(&[0, 0, 0, 6, 1, 0, 50, 0, 20, 0]), FrameOutcome::Malformed);
}

#[test]
fn trailing_bytes_on_bare_variants_are_malformed() {
    assert_eq!(decode(&[0, 0, 0, 2, 2, 0]), FrameOutcome::Malformed);
    assert_eq!(decode(&[0, 0, 0, 2, 3, 0]), FrameOutcome::Malformed);
}

#[test]
fn decode_takes_one_frame_and_reports_its_size() {
    let mut stream = encode(&Message::Detach).unwrap();
    let second = encode(&Message::Data(vec![42])).unwrap();
    stream.extend_from_slice(&second);
    match decode(&stream) {
        FrameOutcome::Frame(m, used) => {
            assert_eq!(m, Message::Detach);
            assert_eq!(used, 5);
            assert_eq!(decode(&stream[used..]), FrameOutcome::Frame(Message::Data(vec![42]), second.len()));
        }
        other => panic!("expected a frame, got {:?}", other),
    }
}
