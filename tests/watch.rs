use remoc::port::SendErrorKind;
use remoc::watch::{
    send_driver_result, send_driver_step, Received, RecvDriver, RecvDriverAction, RecvDriverEvent,
    RemoteSendError, SendDriverAction, SendDriverEvent, BACKCHANNEL_MSG_ERROR, ERROR_QUEUE,
};

#[test]
fn error_queue_is_sixteen() {
    assert_eq!(ERROR_QUEUE, 16);
}

#[test]
fn every_change_sends_the_latest_value() {
    for _ in 0..4 {
        assert_eq!(send_driver_step(&SendDriverEvent::Changed), SendDriverAction::SendLatest);
        assert_eq!(send_driver_result(Ok(())), SendDriverAction::Continue);
    }
    assert_eq!(send_driver_step(&SendDriverEvent::WatchClosed), SendDriverAction::Stop);
}

#[test]
fn backchannel_error_byte_becomes_forward() {
    assert_eq!(
        send_driver_step(&SendDriverEvent::Backchannel(vec![BACKCHANNEL_MSG_ERROR])),
        SendDriverAction::Report(RemoteSendError::Forward)
    );
    assert_eq!(send_driver_step(&SendDriverEvent::Backchannel(vec![0x7f])), SendDriverAction::Continue);
    assert_eq!(send_driver_step(&SendDriverEvent::Backchannel(vec![])), SendDriverAction::Stop);
    assert_eq!(send_driver_step(&SendDriverEvent::BackchannelEnded), SendDriverAction::Stop);
}

#[test]
fn send_errors_item_specific_continue_terminal_stop() {
    assert_eq!(
        send_driver_result(Err(SendErrorKind::ItemTooLarge)),
        SendDriverAction::Report(RemoteSendError::Send(SendErrorKind::ItemTooLarge))
    );
    assert_eq!(
        send_driver_result(Err(SendErrorKind::Serialize)),
        SendDriverAction::Report(RemoteSendError::Send(SendErrorKind::Serialize))
    );
    assert_eq!(
        send_driver_result(Err(SendErrorKind::ConnectionClosed)),
        SendDriverAction::ReportAndStop(RemoteSendError::Send(SendErrorKind::ConnectionClosed))
    );
    assert_eq!(
        send_driver_result(Err(SendErrorKind::Closed)),
        SendDriverAction::ReportAndStop(RemoteSendError::Send(SendErrorKind::Closed))
    );
}

#[test]
fn decode_error_goes_back_to_sender() {
    let mut d = RecvDriver::new(None);
    assert!(!d.has_pending_error());
    let a = d.step(RecvDriverEvent::Received(Received::Error { is_final: false }));
    assert_eq!(a, RecvDriverAction::PublishError { then_stop: false });
    assert!(d.published(true, false));
    assert_eq!(d.step(RecvDriverEvent::ErrorQueued), RecvDriverAction::NotifyRemote);
    assert!(d.running);
    // The remote sender turns the byte into a forwarded error.
    assert_eq!(
        send_driver_step(&SendDriverEvent::Backchannel(vec![BACKCHANNEL_MSG_ERROR])),
        SendDriverAction::Report(RemoteSendError::Forward)
    );
}

#[test]
fn final_decode_error_stops_after_publishing() {
    let mut d = RecvDriver::new(None);
    let a = d.step(RecvDriverEvent::Received(Received::Error { is_final: true }));
    assert_eq!(a, RecvDriverAction::PublishError { then_stop: true });
    assert!(!d.published(true, true));
    assert_eq!(d.step(RecvDriverEvent::Received(Received::Value)), RecvDriverAction::Stop);
}

#[test]
fn pending_error_reported_once() {
    let mut d = RecvDriver::new(Some(RemoteSendError::Forward));
    assert!(d.has_pending_error());
    assert_eq!(d.step(RecvDriverEvent::PendingError), RecvDriverAction::NotifyRemote);
    assert!(!d.has_pending_error());
    assert_eq!(d.step(RecvDriverEvent::PendingError), RecvDriverAction::Continue);
}

#[test]
fn receive_side_stops_on_end_close_or_undelivered() {
    let mut d = RecvDriver::new(None);
    assert_eq!(d.step(RecvDriverEvent::Received(Received::Value)), RecvDriverAction::Publish);
    assert!(d.published(true, false));
    assert_eq!(d.step(RecvDriverEvent::Received(Received::End)), RecvDriverAction::Stop);
    assert!(!d.running);

    let mut d = RecvDriver::new(None);
    assert_eq!(d.step(RecvDriverEvent::LocalClosed), RecvDriverAction::Stop);

    let mut d = RecvDriver::new(None);
    assert!(!d.published(false, false));
}
