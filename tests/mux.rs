use remoc::frame::Frame;
use remoc::mux::{Connection, Lifecycle, OpenError, Outbound};
use remoc::port::SendErrorKind;

#[test]
fn goodbye_drains_queued_frames_before_close() {
    let mut c = Connection::new(4);
    c.queue(Frame::Data { port: 1, data: vec![1, 2] }).unwrap();
    c.queue(Frame::Data { port: 1, data: vec![3] }).unwrap();
    c.goodbye();
    assert_eq!(c.lifecycle(), Lifecycle::GoodbyeSent);
    assert_eq!(c.open(1, 2, None, 0), Err(OpenError::ConnectionClosed));
    assert_eq!(c.next_outbound(), Outbound::Send(Frame::Data { port: 1, data: vec![1, 2] }));
    assert_eq!(c.next_outbound(), Outbound::Send(Frame::Data { port: 1, data: vec![3] }));
    assert_eq!(c.next_outbound(), Outbound::Send(Frame::Goodbye));
    assert_eq!(c.next_outbound(), Outbound::Close);
    assert_eq!(c.lifecycle(), Lifecycle::Terminated);
    assert_eq!(c.open(1, 2, None, 0), Err(OpenError::ConnectionClosed));
}

#[test]
fn transport_loss_fails_pending_sends() {
    let mut c = Connection::new(4);
    c.queue(Frame::Data { port: 1, data: vec![1] }).unwrap();
    c.transport_lost();
    assert_eq!(c.queued_len(), 0);
    assert_eq!(c.queue(Frame::Data { port: 1, data: vec![2] }), Err(SendErrorKind::ConnectionClosed));
    assert_eq!(c.next_outbound(), Outbound::Idle);
}

#[test]
fn running_connection_idles_when_empty() {
    let mut c = Connection::new(1);
    assert_eq!(c.next_outbound(), Outbound::Idle);
    assert_eq!(c.open(5, 6, Some(7), 1), Ok(()));
    assert_eq!(
        c.next_outbound(),
        Outbound::Send(Frame::Open { request_id: 5, port: 6, user_id: Some(7), flags: 1 })
    );
}

#[test]
fn remote_opens_limited_by_max_ports() {
    let mut c = Connection::new(2);
    assert!(c.admit_remote(10));
    assert!(!c.admit_remote(10));
    assert!(c.admit_remote(11));
    assert!(!c.admit_remote(12));
    c.remove_remote(10);
    assert!(c.admit_remote(12));
    c.goodbye();
    c.remove_remote(11);
    assert!(!c.admit_remote(13));
}
