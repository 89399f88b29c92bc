//! Producer ingress: every notification read from a producer's connection is
//! published on the bus; the task ends when the connection does.

use crate::bus::send;
use crate::connection::Inbound;
use crate::message::NotificationMessage;
use tokio::sync::broadcast::Sender;
use vstd::prelude::*;

verus! {

/// What became of one published notification.
#[derive(Clone, Copy, Debug, PartialEq, Eq, Structural)]
pub enum Published {
    /// It was handed to this many receivers.
    Delivered(usize),
    /// Nobody was listening: the notification is dropped.
    NoReceivers,
}

/// Why a producer's task ends.
#[derive(Clone, Copy, Debug, PartialEq, Eq, Structural)]
pub enum IngressStop {
    /// The producer closed its connection.
    ConnectionClosed,
    /// A frame could not be read or decoded.
    ReadFailed,
}

/// What a producer's task does after one read.
#[derive(Clone, Copy, Debug, PartialEq, Eq, Structural)]
pub enum IngressAction {
    /// Read the next frame. A publish without receivers is worth a log line,
    /// nothing more.
    Continue(Published),
    /// End the task. There is no retry and no reconnection.
    Terminate(IngressStop),
}

/// What a producer's task makes of one read, before the bus is involved.
#[derive(Debug, PartialEq, Eq)]
pub enum IngressDecision {
    /// Publish this notification on the bus.
    Publish(NotificationMessage),
    /// End the task.
    Terminate(IngressStop),
}

/// Decides on one read: a notification is published exactly as it was read,
/// and a connection that gave none ends the task.
pub fn ingress_decision(inbound: Inbound<NotificationMessage>) -> (decision: IngressDecision)
    ensures
        decision == match inbound {
            Inbound::Message(message) => IngressDecision::Publish(message),
            Inbound::Closed => IngressDecision::Terminate(IngressStop::ConnectionClosed),
            Inbound::Failed => IngressDecision::Terminate(IngressStop::ReadFailed),
        },
{
    match inbound {
        Inbound::Message(message) => IngressDecision::Publish(message),
        Inbound::Closed => IngressDecision::Terminate(IngressStop::ConnectionClosed),
        Inbound::Failed => IngressDecision::Terminate(IngressStop::ReadFailed),
    }
}

/// What a producer's task does once the bus has answered a publish: it goes
/// on, whatever the answer was.
pub fn after_publish(answer: Result<usize, NotificationMessage>) -> (action: IngressAction)
    ensures
        action == match answer {
            Ok(receivers) => IngressAction::Continue(Published::Delivered(receivers)),
            Err(_) => IngressAction::Continue(Published::NoReceivers),
        },
{
    match answer {
        Ok(receivers) => IngressAction::Continue(Published::Delivered(receivers)),
        Err(_) => IngressAction::Continue(Published::NoReceivers),
    }
}

/// One step of a producer's task: publishes what `ingress_decision` says to
/// publish, or ends the task when nothing more can be read.
///
/// Whether anybody receives a published notification is for the bus to say;
/// either way the task continues.
pub fn ingress_step(bus: &Sender<NotificationMessage>, inbound: Inbound<NotificationMessage>) -> (action:
    IngressAction)
    ensures
        match inbound {
            Inbound::Message(_) => {
                &&& action is Continue
                &&& action matches IngressAction::Continue(Published::Delivered(receivers))
                    ==> receivers >= 1
            },
            Inbound::Closed => action == IngressAction::Terminate(IngressStop::ConnectionClosed),
            Inbound::Failed => action == IngressAction::Terminate(IngressStop::ReadFailed),
        },
{
    match ingress_decision(inbound) {
        IngressDecision::Publish(message) => after_publish(send(bus, message)),
        IngressDecision::Terminate(stop) => IngressAction::Terminate(stop),
    }
}

} // verus!
