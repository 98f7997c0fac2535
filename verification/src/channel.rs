//! The capture bridge: a multi-producer single-consumer channel that
//! carries captured events from whatever thread emits a log call to the
//! per-tick intake, without ever blocking or failing the emitting side.
use vstd::prelude::*;

use crate::levels::DebugLogLevel;
use crate::event::LogEvent;

verus! {

/// The sending half of the standard library's mpsc channel, declared so
/// that it can appear in verified signatures; its values are opaque here.
#[verifier::external_type_specification]
#[verifier::external_body]
#[verifier::reject_recursive_types(T)]
pub struct ExSender<T>(std::sync::mpsc::Sender<T>);

/// The receiving half of the standard library's mpsc channel, declared so
/// that it can appear in verified signatures; its values are opaque here.
#[verifier::external_type_specification]
#[verifier::external_body]
#[verifier::reject_recursive_types(T)]
pub struct ExReceiver<T>(std::sync::mpsc::Receiver<T>);

/// Relies on `std::sync::mpsc::channel`: a fresh asynchronous channel with
/// an unbounded buffer; sends on it never block.
#[verifier::external_body]
pub fn log_channel() -> (std::sync::mpsc::Sender<LogEvent>, std::sync::mpsc::Receiver<LogEvent>) {
    std::sync::mpsc::channel()
}

/// Relies on `std::sync::mpsc::Sender::send`: buffers the event without
/// blocking; its only error, a disconnected receiver, is swallowed here, so
/// the emitting log call never fails on account of the overlay.
#[verifier::external_body]
pub(crate) fn send_event(sender: &std::sync::mpsc::Sender<LogEvent>, event: LogEvent) {
    let _ = sender.send(event);
}

/// Relies on `std::sync::mpsc::Receiver::try_recv`: returns a buffered
/// event if one is waiting and returns at once otherwise, never blocking;
/// an empty or disconnected channel becomes `None`. What it hands back
/// depends on concurrent senders, so nothing can be promised of the value.
#[verifier::external_body]
fn try_recv_event(receiver: &std::sync::mpsc::Receiver<LogEvent>) -> Option<LogEvent> {
    receiver.try_recv().ok()
}

/// Capture one log emission and hand it to the channel: the message, level
/// and target are recorded together with the current time, and the send
/// silently does nothing if the receiving side is gone.
pub fn capture_and_send(
    sender: &std::sync::mpsc::Sender<LogEvent>,
    message: String,
    level: DebugLogLevel,
    target: String,
) {
    let event = LogEvent::capture(message, level, target);
    send_event(sender, event);
}

/// Drain the events buffered in the channel right now, in arrival order,
/// without blocking: polling stops at the first empty poll, or after
/// `max_events` events.
pub fn drain_events(receiver: &std::sync::mpsc::Receiver<LogEvent>, max_events: usize) -> (r: Vec<
    LogEvent,
>)
    ensures
        r@.len() <= max_events,
{
    let mut out: Vec<LogEvent> = Vec::new();
    while out.len() < max_events
        invariant
            out@.len() <= max_events,
        decreases max_events - out@.len(),
    {
        match try_recv_event(receiver) {
            Some(event) => out.push(event),
            None => {
                return out;
            },
        }
    }
    out
}

} // verus!
