use remoc::port::{check_item_size, split_chunks, FlowError, PortEnds, RecvWindow, SendCredits, SendErrorKind};

#[test]
fn item_at_max_size_succeeds_one_more_fails() {
    assert_eq!(check_item_size(100, 100), Ok(()));
    assert_eq!(check_item_size(101, 100), Err(SendErrorKind::ItemTooLarge));
    assert_eq!(check_item_size(0, 0), Ok(()));
}

#[test]
fn echo_bytes_arrive_exactly() {
    let data = [0x01u8, 0x02, 0x03];
    let chunks = split_chunks(&data, 2);
    assert_eq!(chunks, vec![vec![0x01, 0x02], vec![0x03]]);
    let mut credits = SendCredits::new(8);
    let mut rx = RecvWindow::new(8);
    for c in &chunks {
        assert!(credits.try_consume(c.len() as u32));
        assert_eq!(rx.accept(c), Ok(()));
    }
    assert_eq!(rx.consume(16), vec![0x01, 0x02, 0x03]);
    assert_eq!(rx.consume(16), Vec::<u8>::new());
}

#[test]
fn split_chunks_edges() {
    assert!(split_chunks(&[], 4).is_empty());
    let data: Vec<u8> = (0..10).collect();
    let chunks = split_chunks(&data, 4);
    assert_eq!(chunks.len(), 3);
    assert_eq!(chunks[2], vec![8, 9]);
    assert_eq!(chunks.concat(), data);
    assert_eq!(split_chunks(&data, 10).len(), 1);
}

#[test]
fn credit_back_pressure() {
    let mut credits = SendCredits::new(4);
    let mut rx = RecvWindow::new(4);
    let data: Vec<u8> = (0..16).collect();
    let mut sent = 0usize;
    for b in &data {
        if !credits.try_consume(1) {
            break;
        }
        rx.accept(&[*b]).unwrap();
        sent += 1;
    }
    assert_eq!(sent, 4);
    assert_eq!(credits.available(), 0);
    assert!(!credits.try_consume(1));
    assert_eq!(rx.consume(2), vec![0, 1]);
    let grant = rx.take_grant();
    assert_eq!(grant, 2);
    assert_eq!(credits.grant(grant), Ok(()));
    assert!(credits.try_consume(1));
    rx.accept(&[data[4]]).unwrap();
    assert_eq!(rx.len(), 3);
}

#[test]
fn credits_balance_at_quiescence() {
    let mut credits = SendCredits::new(6);
    let mut rx = RecvWindow::new(6);
    assert!(credits.try_consume(5));
    rx.accept(&[1, 2, 3, 4, 5]).unwrap();
    assert_eq!(rx.consume(1), vec![1]);
    assert_eq!(rx.take_grant(), 0);
    assert_eq!(rx.consume(10), vec![2, 3, 4, 5]);
    let g = rx.take_grant();
    assert_eq!(g, 5);
    credits.grant(g).unwrap();
    assert_eq!(credits.available(), 6);
    assert_eq!(rx.take_grant(), 0);
}

#[test]
fn window_exceeded_is_rejected() {
    let mut rx = RecvWindow::new(3);
    assert_eq!(rx.accept(&[1, 2]), Ok(()));
    assert_eq!(rx.accept(&[3, 4]), Err(FlowError::WindowExceeded));
    assert_eq!(rx.len(), 2);
    assert_eq!(rx.accept(&[3]), Ok(()));
}

#[test]
fn credit_overflow_is_rejected() {
    let mut credits = SendCredits::new(4);
    assert_eq!(credits.grant(1), Err(FlowError::CreditOverflow));
    assert!(credits.try_consume(3));
    assert_eq!(credits.grant(4), Err(FlowError::CreditOverflow));
    assert_eq!(credits.grant(3), Ok(()));
    assert_eq!(credits.available(), 4);
}

#[test]
fn send_error_kinds_item_specific() {
    assert!(SendErrorKind::Serialize.is_item_specific());
    assert!(SendErrorKind::ItemTooLarge.is_item_specific());
    assert!(!SendErrorKind::Closed.is_item_specific());
    assert!(!SendErrorKind::ConnectionClosed.is_item_specific());
}

#[test]
fn half_close_then_free() {
    let mut ends = PortEnds::new();
    assert_eq!(ends.check_send(), Ok(()));
    assert!(!ends.can_free());
    ends.hangup(false);
    assert_eq!(ends.check_send(), Ok(()));
    assert!(!ends.can_free());
    ends.hangup(true);
    assert_eq!(ends.check_send(), Err(SendErrorKind::Closed));
    assert!(ends.can_free());
}
