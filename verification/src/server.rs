//! The broker itself: where it listens, who has registered, and what it
//! decides during the handshake of each accepted connection.
//!
//! The handshake has two steps. The first frame of a connection says who is
//! connecting. A producer is admitted at once. A consumer sends a second
//! frame with its subscriptions; only when that has arrived is the consumer
//! given an identity and recorded in the registry.

use crate::application::{ApplicationType, ConsumerKind, Role};
use crate::connection::{ConnectedApplication, Inbound};
use crate::identity::{fresh_identity, IDENTITY_LENGTH};
use crate::message::{ConnectMessage, ConsumerSubscriptionMessage, MessageKind};
use crate::registry::{with_registration, Registry};
use vstd::prelude::*;

verus! {

/// Port the broker listens on when none is given.
pub const DEFAULT_PORT: u16 = 6789;

/// An IP address, as its octets in network order.
#[derive(Clone, Copy, Debug, PartialEq, Eq)]
pub enum IpAddress {
    V4([u8; 4]),
    V6([u8; 16]),
}

impl IpAddress {
    /// The IPv4 loopback address, `127.0.0.1`: where the broker listens when
    /// no address is given.
    pub fn loopback() -> (ip: IpAddress)
        ensures
            ip matches IpAddress::V4(octets) && octets@ == seq![127u8, 0u8, 0u8, 1u8],
    {
        let octets: [u8; 4] = [127, 0, 0, 1];
        assert(octets@ =~= seq![127u8, 0u8, 0u8, 1u8]);
        IpAddress::V4(octets)
    }
}

/// The broker: its listening address and its subscriber registry.
pub struct Server {
    ip: IpAddress,
    port: u16,
    subscribers: Registry,
}

/// A broker as a mathematical value.
pub struct Broker {
    pub ip: IpAddress,
    pub port: u16,
    pub subscribers: Map<Role, Seq<Seq<char>>>,
}

impl View for Server {
    type V = Broker;

    closed spec fn view(&self) -> Broker {
        Broker { ip: self.ip, port: self.port, subscribers: self.subscribers@ }
    }
}

/// What the acceptor does with a connection after its first frame.
#[derive(Debug, PartialEq, Eq)]
pub enum ConnectDecision {
    /// A producer connected: start its ingress task.
    StartProducer(ConnectedApplication),
    /// A consumer of this kind connected: read its subscriptions next.
    AwaitSubscription(ConsumerKind),
    /// The peer left without a word: drop the connection and go on
    /// accepting.
    Abandon,
    /// The first frame could not be read: stop accepting connections
    /// altogether.
    StopAccepting,
}

/// What the acceptor does with a consumer's connection after its second
/// frame.
#[derive(Debug, PartialEq, Eq)]
pub enum SubscriptionDecision {
    /// The consumer is registered: start its egress task with these
    /// subscriptions.
    StartConsumer(ConnectedApplication, Vec<MessageKind>),
    /// No subscriptions arrived: drop this connection and go on accepting.
    Abandon,
}

impl Server {
    /// A broker for the given address, with nobody registered.
    pub fn new(ip: IpAddress, port: u16) -> (server: Server)
        ensures
            server@.ip == ip,
            server@.port == port,
            server@.subscribers == Map::<Role, Seq<Seq<char>>>::empty(),
    {
        Server { ip, port, subscribers: Registry::new() }
    }

    /// The address to listen on.
    pub fn ip(&self) -> (ip: IpAddress)
        ensures
            ip == self@.ip,
    {
        self.ip
    }

    /// The port to listen on.
    pub fn port(&self) -> (port: u16)
        ensures
            port == self@.port,
    {
        self.port
    }

    /// The subscriber registry, which every consumer's task consults.
    pub fn subscribers(&self) -> (registry: &Registry)
        ensures
            registry@ == self@.subscribers,
    {
        &self.subscribers
    }

    /// Admits a producer under the identity `id`.
    pub fn admit_producer(id: String) -> (app: ConnectedApplication)
        ensures
            app@.id == id@,
            app@.role == Role::Producer,
    {
        ConnectedApplication { app_id: id, app_type: ApplicationType::Producer }
    }

    /// Admits a consumer of the given kind under the identity `id`: records
    /// the identity in the registry, after all that are recorded for the same
    /// application type.
    pub fn admit_consumer(&mut self, kind: ConsumerKind, id: String) -> (app: ConnectedApplication)
        ensures
            app@.id == id@,
            app@.role == Role::Consumer(kind@),
            final(self)@.ip == old(self)@.ip,
            final(self)@.port == old(self)@.port,
            final(self)@.subscribers == with_registration(
                old(self)@.subscribers,
                Role::Consumer(kind@),
                id@,
            ),
    {
        let app_type = ApplicationType::Consumer(kind);
        self.subscribers.register(app_type.clone(), id.clone());
        ConnectedApplication { app_id: id, app_type }
    }

    /// Decides on a connection from what its first frame turned out to be.
    ///
    /// A producer is admitted under a freshly drawn identity. An unreadable
    /// first frame ends the accept loop for good; a peer that closes before
    /// sending anything costs only its own connection.
    pub fn on_connect(inbound: Inbound<ConnectMessage>) -> (decision: ConnectDecision)
        ensures
            match inbound {
                Inbound::Message(message) => match message.source_app@ {
                    Role::Producer => {
                        &&& decision matches ConnectDecision::StartProducer(app)
                        &&& app@.role == Role::Producer
                        &&& app@.id.len() == IDENTITY_LENGTH
                    },
                    Role::Consumer(name) => {
                        &&& decision matches ConnectDecision::AwaitSubscription(kind)
                        &&& kind@ == name
                    },
                },
                Inbound::Closed => decision is Abandon,
                Inbound::Failed => decision is StopAccepting,
            },
    {
        match inbound {
            Inbound::Message(message) => match message.source_app {
                ApplicationType::Producer => ConnectDecision::StartProducer(
                    Server::admit_producer(fresh_identity()),
                ),
                ApplicationType::Consumer(kind) => ConnectDecision::AwaitSubscription(kind),
            },
            Inbound::Closed => ConnectDecision::Abandon,
            Inbound::Failed => ConnectDecision::StopAccepting,
        }
    }

    /// Decides on a consumer's connection from what its second frame turned
    /// out to be.
    ///
    /// With its subscriptions in hand the consumer is admitted under a
    /// freshly drawn identity. Without them, whether the frame was unreadable
    /// or never came, only this connection is dropped and the registry stays
    /// as it was.
    pub fn on_subscription(
        &mut self,
        kind: ConsumerKind,
        inbound: Inbound<ConsumerSubscriptionMessage>,
    ) -> (decision: SubscriptionDecision)
        ensures
            final(self)@.ip == old(self)@.ip,
            final(self)@.port == old(self)@.port,
            match inbound {
                Inbound::Message(message) => {
                    &&& decision matches SubscriptionDecision::StartConsumer(app, subscriptions)
                    &&& app@.role == Role::Consumer(kind@)
                    &&& app@.id.len() == IDENTITY_LENGTH
                    &&& subscriptions == message.message_subscriptions
                    &&& final(self)@.subscribers == with_registration(
                        old(self)@.subscribers,
                        Role::Consumer(kind@),
                        app@.id,
                    )
                },
                _ => {
                    &&& decision is Abandon
                    &&& final(self)@.subscribers == old(self)@.subscribers
                },
            },
    {
        match inbound {
            Inbound::Message(message) => {
                let app = self.admit_consumer(kind, fresh_identity());
                SubscriptionDecision::StartConsumer(app, message.message_subscriptions)
            },
            _ => SubscriptionDecision::Abandon,
        }
    }
}

} // verus!
