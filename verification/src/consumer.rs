//! Consumer egress: every notification that arrives on the bus is either
//! written to the consumer's connection or dropped. It is written only by
//! the primary of the consumer's application type, and only if the consumer
//! subscribed to its kind.

use crate::application::Role;
use crate::connection::{ConnectedApplication, Connection};
use crate::frame::{encode_frame, frame, MAX_FRAME_LENGTH};
use crate::message::{kind_names, MessageKind, Notification, NotificationMessage};
use crate::registry::{primary, Registry};
use vstd::prelude::*;

verus! {

/// Why a consumer's task ends.
#[derive(Clone, Copy, Debug, PartialEq, Eq, Structural)]
pub enum EgressStop {
    /// Every publishing end of the bus is gone.
    BusClosed,
    /// A notification to forward does not fit into one frame.
    FrameTooLarge,
    /// Writing to the consumer's connection failed.
    WriteFailed,
}

/// What can happen to a consumer's task, as a mathematical value.
pub enum Event {
    Message(Notification),
    Lagged(u64),
    BusClosed,
    WriteFailed,
}

/// What can happen to a consumer's task.
#[derive(Debug, PartialEq, Eq)]
pub enum EgressEvent {
    /// The bus delivered the next notification.
    Message(NotificationMessage),
    /// The consumer fell behind and the bus dropped this many of its oldest
    /// unread notifications.
    Lagged(u64),
    /// Every publishing end of the bus is gone.
    BusClosed,
    /// The frame handed out by the last step could not be written.
    WriteFailed,
}

impl View for EgressEvent {
    type V = Event;

    open spec fn view(&self) -> Event {
        match self {
            EgressEvent::Message(message) => Event::Message(message@),
            EgressEvent::Lagged(missed) => Event::Lagged(*missed),
            EgressEvent::BusClosed => Event::BusClosed,
            EgressEvent::WriteFailed => Event::WriteFailed,
        }
    }
}

/// What a consumer's task does next, as a mathematical value.
pub enum Action {
    Forward(Seq<u8>),
    Discard,
    ReportLag(u64),
    Terminate(EgressStop),
}

/// What a consumer's task does next.
#[derive(Debug, PartialEq, Eq)]
pub enum EgressAction {
    /// Write these bytes, one whole frame, to the consumer's connection,
    /// then wait for the next event.
    Forward(Vec<u8>),
    /// Drop the notification and wait for the next event.
    Discard,
    /// Log that this many notifications were lost and wait for the next
    /// event.
    ReportLag(u64),
    /// End the task.
    Terminate(EgressStop),
}

impl View for EgressAction {
    type V = Action;

    open spec fn view(&self) -> Action {
        match self {
            EgressAction::Forward(bytes) => Action::Forward(bytes@),
            EgressAction::Discard => Action::Discard,
            EgressAction::ReportLag(missed) => Action::ReportLag(*missed),
            EgressAction::Terminate(stop) => Action::Terminate(*stop),
        }
    }
}

/// Whether the connection `app` is the one that forwards for its
/// application type.
pub open spec fn forwards_for_its_type(
    subscribers: Map<Role, Seq<Seq<char>>>,
    app: Connection,
) -> bool {
    primary(subscribers, app.role) == Some(app.id)
}

/// What becomes of a notification that reached the consumer `app`.
pub open spec fn delivery(
    subscribers: Map<Role, Seq<Seq<char>>>,
    app: Connection,
    subscriptions: Seq<Seq<char>>,
    message: Notification,
) -> Action {
    if forwards_for_its_type(subscribers, app) && subscriptions.contains(message.kind) {
        if message.body.len() <= MAX_FRAME_LENGTH {
            Action::Forward(frame(message.body))
        } else {
            Action::Terminate(EgressStop::FrameTooLarge)
        }
    } else {
        Action::Discard
    }
}

/// The decision of a consumer's task on one event.
pub open spec fn egress(
    subscribers: Map<Role, Seq<Seq<char>>>,
    app: Connection,
    subscriptions: Seq<Seq<char>>,
    event: Event,
) -> Action {
    match event {
        Event::Message(message) => delivery(subscribers, app, subscriptions, message),
        Event::Lagged(missed) => Action::ReportLag(missed),
        Event::BusClosed => Action::Terminate(EgressStop::BusClosed),
        Event::WriteFailed => Action::Terminate(EgressStop::WriteFailed),
    }
}

/// Scans the subscriptions in the order in which they were declared and
/// gives the position of the first one of the given kind.
pub fn first_subscription(subscriptions: &Vec<MessageKind>, kind: &MessageKind) -> (found: Option<
    usize,
>)
    ensures
        match found {
            Some(i) => {
                &&& i < subscriptions@.len()
                &&& subscriptions@[i as int]@ == kind@
                &&& forall|j: int| 0 <= j < i ==> (#[trigger] subscriptions@[j])@ != kind@
            },
            None => !kind_names(subscriptions@).contains(kind@),
        },
        found is Some <==> kind_names(subscriptions@).contains(kind@),
{
    let mut i: usize = 0;
    while i < subscriptions.len()
        invariant
            i <= subscriptions@.len(),
            forall|j: int| 0 <= j < i ==> (#[trigger] subscriptions@[j])@ != kind@,
        decreases subscriptions@.len() - i,
    {
        if subscriptions[i].same(kind) {
            assert(kind_names(subscriptions@)[i as int] == kind@);
            return Some(i);
        }
        i = i + 1;
    }
    assert forall|j: int| 0 <= j < kind_names(subscriptions@).len() implies kind_names(
        subscriptions@,
    )[j] != kind@ by {
        assert(subscriptions@[j]@ != kind@);
    }
    None
}

/// One step of a consumer's task.
///
/// A notification is forwarded, as exactly one frame, if and only if this
/// connection is the primary of its application type and the notification's
/// kind is among its subscriptions, however often. Everything else that
/// arrives on the bus is dropped, and the task goes on: a backup keeps
/// reading and discarding. The task ends only when the bus is closed, when a
/// write failed, or when a notification to forward is too large for a frame.
pub fn egress_step(
    registry: &Registry,
    app: &ConnectedApplication,
    subscriptions: &Vec<MessageKind>,
    event: EgressEvent,
) -> (action: EgressAction)
    requires
        app@.role is Consumer,
    ensures
        action@ == egress(registry@, app@, kind_names(subscriptions@), event@),
{
    match event {
        EgressEvent::Message(message) => {
            if !registry.is_primary(&app.app_type, &app.app_id) {
                return EgressAction::Discard;
            }
            match first_subscription(subscriptions, &message.kind) {
                Some(_) => match encode_frame(message.body.as_slice()) {
                    Ok(bytes) => EgressAction::Forward(bytes),
                    Err(_) => EgressAction::Terminate(EgressStop::FrameTooLarge),
                },
                None => EgressAction::Discard,
            }
        },
        EgressEvent::Lagged(missed) => EgressAction::ReportLag(missed),
        EgressEvent::BusClosed => EgressAction::Terminate(EgressStop::BusClosed),
        EgressEvent::WriteFailed => EgressAction::Terminate(EgressStop::WriteFailed),
    }
}

} // verus!
