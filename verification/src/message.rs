//! What travels through the broker: the handshake messages and the
//! notifications themselves.

use crate::application::ApplicationType;
use vstd::prelude::*;

verus! {

/// The kind of a notification (for instance `"AuctionOutbid"`), known to the
/// broker only by its name. Subscriptions are matched on the kind alone.
#[derive(Debug, PartialEq, Eq)]
pub struct MessageKind {
    pub name: String,
}

impl View for MessageKind {
    type V = Seq<char>;

    open spec fn view(&self) -> Seq<char> {
        self.name@
    }
}

impl Clone for MessageKind {
    fn clone(&self) -> (copy: Self)
        ensures
            copy@ == self@,
    {
        MessageKind { name: self.name.clone() }
    }
}

impl MessageKind {
    /// The kind with the given name.
    pub fn new(name: &str) -> (kind: MessageKind)
        ensures
            kind@ == name@,
    {
        MessageKind { name: name.to_owned() }
    }

    /// Whether both are the same kind.
    pub fn same(&self, other: &MessageKind) -> (equal: bool)
        ensures
            equal == (self@ == other@),
    {
        self.name == other.name
    }
}

/// The names of a list of kinds, in the same order.
pub open spec fn kind_names(kinds: Seq<MessageKind>) -> Seq<Seq<char>> {
    kinds.map_values(|kind: MessageKind| kind@)
}

/// A notification as a mathematical value: its kind and its encoded payload.
pub struct Notification {
    pub kind: Seq<char>,
    pub body: Seq<u8>,
}

/// One published event: its kind, and the document that was received for it,
/// which the broker passes on without looking inside.
#[derive(Debug, PartialEq, Eq)]
pub struct NotificationMessage {
    pub kind: MessageKind,
    pub body: Vec<u8>,
}

impl View for NotificationMessage {
    type V = Notification;

    open spec fn view(&self) -> Notification {
        Notification { kind: self.kind@, body: self.body@ }
    }
}

impl Clone for NotificationMessage {
    fn clone(&self) -> (copy: Self)
        ensures
            copy@ == self@,
    {
        NotificationMessage { kind: self.kind.clone(), body: self.body.clone() }
    }
}

/// The first frame of every connection: who is connecting.
#[derive(Debug, PartialEq, Eq)]
pub struct ConnectMessage {
    pub source_app: ApplicationType,
}

/// The second frame of a consumer's connection: the kinds it wants
/// delivered, in the order in which it declared them.
#[derive(Debug, PartialEq, Eq)]
pub struct ConsumerSubscriptionMessage {
    pub message_subscriptions: Vec<MessageKind>,
}

} // verus!
