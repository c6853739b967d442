use remoc::frame::{decode, encode, Direction, Frame, FrameError, TAG_CREDIT, TAG_OPEN};

fn all_frames() -> Vec<Frame> {
    vec![
        Frame::Open { request_id: 7, port: 0xdead_beef, user_id: None, flags: 3 },
        Frame::Open { request_id: 1, port: 2, user_id: Some(99), flags: 0 },
        Frame::Opened { request_id: 7, port: 8, credits: 65536 },
        Frame::Rejected { request_id: 4, reason: 2 },
        Frame::Data { port: 5, data: vec![0x01, 0x02, 0x03] },
        Frame::Data { port: 5, data: vec![] },
        Frame::PortData { port: 6, data: vec![9, 9] },
        Frame::Credit { port: 1, credits: u32::MAX },
        Frame::Hangup { port: 3, direction: Direction::Send },
        Frame::Hangup { port: 3, direction: Direction::Receive },
        Frame::Goodbye,
        Frame::Ping { nonce: 12345 },
        Frame::Pong { nonce: 12345 },
        Frame::Backchannel { port: 11, byte: 0x02 },
    ]
}

#[test]
fn every_frame_round_trips() {
    for f in all_frames() {
        let bytes = encode(&f);
        assert_eq!(decode(&bytes), Ok(f));
    }
}

#[test]
fn credit_frame_exact_bytes() {
    let bytes = encode(&Frame::Credit { port: 0x0102_0304, credits: 5 });
    assert_eq!(bytes, vec![TAG_CREDIT, 0x04, 0x03, 0x02, 0x01, 5, 0, 0, 0]);
}

#[test]
fn data_frame_carries_bytes_after_port() {
    let bytes = encode(&Frame::Data { port: 1, data: vec![0xaa, 0xbb] });
    assert_eq!(bytes.len(), 7);
    assert_eq!(&bytes[5..], &[0xaa, 0xbb]);
}

#[test]
fn frame_errors() {
    assert_eq!(decode(&[]), Err(FrameError::Empty));
    assert_eq!(decode(&[0xee]), Err(FrameError::UnknownTag(0xee)));
    assert_eq!(decode(&[0]), Err(FrameError::UnknownTag(0)));
    let mut goodbye = encode(&Frame::Goodbye);
    goodbye.push(0);
    assert_eq!(decode(&goodbye), Err(FrameError::BadLength));
    let mut hangup = encode(&Frame::Hangup { port: 1, direction: Direction::Send });
    hangup[5] = 7;
    assert_eq!(decode(&hangup), Err(FrameError::BadField));
    let credit = encode(&Frame::Credit { port: 1, credits: 2 });
    assert_eq!(decode(&credit[..8]), Err(FrameError::BadLength));
}

#[test]
fn bad_field_only_at_a_fitting_length() {
    let mut open = encode(&Frame::Open { request_id: 1, port: 2, user_id: None, flags: 0 });
    assert_eq!(open.len(), 11);
    assert_eq!(open[0], TAG_OPEN);
    open[10] = 5;
    assert_eq!(decode(&open), Err(FrameError::BadField));
    open.push(0);
    assert_eq!(decode(&open), Err(FrameError::BadLength));
}
