//! Decision logic of the two driver tasks that connect a local watch channel
//! with a remote port.
//!
//! The send-side driver forwards local watch updates to the port and turns
//! back-channel messages into local errors. The receive-side driver
//! republishes received values locally and tells the remote sender, over the
//! back channel, when one of its items could not be received. The drivers
//! themselves only wait for events and perform the actions decided here.
use crate::port::SendErrorKind;
use vstd::prelude::*;

verus! {

/// Length of the queue that stores errors that occurred during remote send.
/// When it is full, further errors are dropped.
pub const ERROR_QUEUE: usize = 16;

/// Back-channel message byte: the item last sent could not be received.
pub const BACKCHANNEL_MSG_ERROR: u8 = 0x02;

/// An error reported to the local sender of a remote watch channel.
#[derive(Debug, Clone, Copy, PartialEq, Eq, Structural)]
pub enum RemoteSendError {
    /// Sending to the remote endpoint failed.
    Send(SendErrorKind),
    /// The remote endpoint reported that it could not receive an item.
    Forward,
}

/// What the send-side driver observed, in the driver's order of preference:
/// back-channel messages are served before local updates.
#[derive(Debug, PartialEq, Eq)]
pub enum SendDriverEvent {
    /// A back-channel message arrived with these bytes.
    Backchannel(Vec<u8>),
    /// The back channel ended or failed.
    BackchannelEnded,
    /// The local watch holds a value that has not been sent yet.
    Changed,
    /// The local watch sender is gone.
    WatchClosed,
}

/// What the send-side driver does next.
#[derive(Debug, Clone, Copy, PartialEq, Eq, Structural)]
pub enum SendDriverAction {
    /// Nothing to do; wait for the next event.
    Continue,
    /// Put the error into the error queue (dropping it if the queue is full)
    /// and continue.
    Report(RemoteSendError),
    /// Put the error into the error queue, then stop.
    ReportAndStop(RemoteSendError),
    /// Take the latest local value, mark it seen and send it.
    SendLatest,
    /// Stop the driver.
    Stop,
}

/// The send-side driver's response to an event.
pub open spec fn send_event_action(ev: SendDriverEvent) -> SendDriverAction {
    match ev {
        SendDriverEvent::Backchannel(msg) => if msg@.len() == 0 {
            SendDriverAction::Stop
        } else if msg@[0] == BACKCHANNEL_MSG_ERROR {
            SendDriverAction::Report(RemoteSendError::Forward)
        } else {
            SendDriverAction::Continue
        },
        SendDriverEvent::BackchannelEnded => SendDriverAction::Stop,
        SendDriverEvent::Changed => SendDriverAction::SendLatest,
        SendDriverEvent::WatchClosed => SendDriverAction::Stop,
    }
}

/// The send-side driver's response to the outcome of sending a value.
pub open spec fn send_result_action(res: Result<(), SendErrorKind>) -> SendDriverAction {
    match res {
        Ok(()) => SendDriverAction::Continue,
        Err(kind) => if kind.spec_is_item_specific() {
            SendDriverAction::Report(RemoteSendError::Send(kind))
        } else {
            SendDriverAction::ReportAndStop(RemoteSendError::Send(kind))
        },
    }
}

/// Decides how the send-side driver responds to an event.
pub fn send_driver_step(ev: &SendDriverEvent) -> (a: SendDriverAction)
    ensures
        a == send_event_action(*ev),
{
    match ev {
        SendDriverEvent::Backchannel(msg) => {
            if msg.len() == 0 {
                SendDriverAction::Stop
            } else if msg[0] == BACKCHANNEL_MSG_ERROR {
                SendDriverAction::Report(RemoteSendError::Forward)
            } else {
                SendDriverAction::Continue
            }
        },
        SendDriverEvent::BackchannelEnded => SendDriverAction::Stop,
        SendDriverEvent::Changed => SendDriverAction::SendLatest,
        SendDriverEvent::WatchClosed => SendDriverAction::Stop,
    }
}

/// Decides how the send-side driver responds to the outcome of a send:
/// an item-specific error is reported and the driver goes on; any other
/// error is reported and ends the driver.
pub fn send_driver_result(res: Result<(), SendErrorKind>) -> (a: SendDriverAction)
    ensures
        a == send_result_action(res),
{
    match res {
        Ok(()) => SendDriverAction::Continue,
        Err(kind) => {
            if kind.is_item_specific() {
                SendDriverAction::Report(RemoteSendError::Send(kind))
            } else {
                SendDriverAction::ReportAndStop(RemoteSendError::Send(kind))
            }
        },
    }
}

/// What the receive-side driver received from the remote endpoint.
#[derive(Debug, Clone, Copy, PartialEq, Eq, Structural)]
pub enum Received {
    /// A value was received and decoded.
    Value,
    /// The remote sender closed the port.
    End,
    /// Receiving or decoding failed; a final error ends the stream.
    Error { is_final: bool },
}

/// What the receive-side driver observed, in the driver's order of
/// preference.
#[derive(Debug, Clone, Copy, PartialEq, Eq, Structural)]
pub enum RecvDriverEvent {
    /// Every local receiver is gone.
    LocalClosed,
    /// A local receiver queued an error for the remote sender.
    ErrorQueued,
    /// The error the driver was created with may now be reported; only
    /// observed while [`RecvDriver::has_pending_error`] holds.
    PendingError,
    /// Something arrived from the remote endpoint.
    Received(Received),
}

/// What the receive-side driver does next.
#[derive(Debug, Clone, Copy, PartialEq, Eq, Structural)]
pub enum RecvDriverAction {
    /// Nothing to do; wait for the next event.
    Continue,
    /// Stop the driver.
    Stop,
    /// Send the back-channel error byte to the remote sender.
    NotifyRemote,
    /// Publish the received value to the local watch.
    Publish,
    /// Publish a remote-receive error to the local watch; stop afterwards
    /// if `then_stop` holds.
    PublishError { then_stop: bool },
}

/// State of the receive-side driver.
#[derive(Debug, Clone, Copy, PartialEq, Eq, Structural)]
pub struct RecvDriver {
    /// An error that is still to be reported to the remote sender.
    pub pending_error: bool,
    /// Whether the driver is still running.
    pub running: bool,
}

/// The receive-side driver's next state and action on an event.
pub open spec fn recv_step(s: RecvDriver, ev: RecvDriverEvent) -> (RecvDriver, RecvDriverAction) {
    let stopped = RecvDriver { running: false, ..s };
    if !s.running {
        (s, RecvDriverAction::Stop)
    } else {
        match ev {
            RecvDriverEvent::LocalClosed => (stopped, RecvDriverAction::Stop),
            RecvDriverEvent::ErrorQueued => (s, RecvDriverAction::NotifyRemote),
            RecvDriverEvent::PendingError => if s.pending_error {
                (RecvDriver { pending_error: false, ..s }, RecvDriverAction::NotifyRemote)
            } else {
                (s, RecvDriverAction::Continue)
            },
            RecvDriverEvent::Received(Received::Value) => (s, RecvDriverAction::Publish),
            RecvDriverEvent::Received(Received::End) => (stopped, RecvDriverAction::Stop),
            RecvDriverEvent::Received(Received::Error { is_final }) => (
                s,
                RecvDriverAction::PublishError { then_stop: is_final },
            ),
        }
    }
}

impl RecvDriver {
    /// A running driver, which first reports `current_err` to the remote
    /// sender if there is one.
    pub fn new(current_err: Option<RemoteSendError>) -> (r: RecvDriver)
        ensures
            r.running,
            r.pending_error == current_err is Some,
    {
        RecvDriver { pending_error: current_err.is_some(), running: true }
    }

    /// Whether an error is still to be reported to the remote sender.
    pub fn has_pending_error(&self) -> (r: bool)
        ensures
            r == self.pending_error,
    {
        self.pending_error
    }

    /// Decides how the driver responds to an event.
    pub fn step(&mut self, ev: RecvDriverEvent) -> (a: RecvDriverAction)
        ensures
            (*final(self), a) == recv_step(*old(self), ev),
    {
        if !self.running {
            return RecvDriverAction::Stop;
        }
        match ev {
            RecvDriverEvent::LocalClosed => {
                self.running = false;
                RecvDriverAction::Stop
            },
            RecvDriverEvent::ErrorQueued => RecvDriverAction::NotifyRemote,
            RecvDriverEvent::PendingError => {
                if self.pending_error {
                    self.pending_error = false;
                    RecvDriverAction::NotifyRemote
                } else {
                    RecvDriverAction::Continue
                }
            },
            RecvDriverEvent::Received(Received::Value) => RecvDriverAction::Publish,
            RecvDriverEvent::Received(Received::End) => {
                self.running = false;
                RecvDriverAction::Stop
            },
            RecvDriverEvent::Received(Received::Error { is_final }) => {
                RecvDriverAction::PublishError { then_stop: is_final }
            },
        }
    }

    /// Records the outcome of publishing to the local watch: the driver stops
    /// when no local receiver took the value, or when the published error
    /// was final.
    pub fn published(&mut self, delivered: bool, then_stop: bool) -> (running: bool)
        ensures
            running == final(self).running,
            final(self).running == (old(self).running && delivered && !then_stop),
            final(self).pending_error == old(self).pending_error,
    {
        if !delivered || then_stop {
            self.running = false;
        }
        self.running
    }
}

} // verus!
