use notification_broker::application::{ApplicationType, ConsumerKind};
use notification_broker::connection::{ConnectedApplication, Inbound};
use notification_broker::identity::IDENTITY_LENGTH;
use notification_broker::message::{ConnectMessage, ConsumerSubscriptionMessage, MessageKind};
use notification_broker::server::{
    ConnectDecision, IpAddress, Server, SubscriptionDecision, DEFAULT_PORT,
};

fn server() -> Server {
    Server::new(IpAddress::loopback(), DEFAULT_PORT)
}

fn connect(app_type: ApplicationType) -> Inbound<ConnectMessage> {
    Inbound::Message(ConnectMessage { source_app: app_type })
}

fn subscribe(kinds: &[&str]) -> Inbound<ConsumerSubscriptionMessage> {
    Inbound::Message(ConsumerSubscriptionMessage {
        message_subscriptions: kinds.iter().map(|kind| MessageKind::new(kind)).collect(),
    })
}

fn started_producer(decision: ConnectDecision) -> ConnectedApplication {
    match decision {
        ConnectDecision::StartProducer(app) => app,
        other => panic!("expected a producer to start, got {:?}", other),
    }
}

fn started_consumer(decision: SubscriptionDecision) -> (ConnectedApplication, Vec<MessageKind>) {
    match decision {
        SubscriptionDecision::StartConsumer(app, subscriptions) => (app, subscriptions),
        other => panic!("expected a consumer to start, got {:?}", other),
    }
}

fn is_hyphenated_random_uuid(id: &str) -> bool {
    let bytes = id.as_bytes();
    bytes.len() == 36
        && bytes.iter().enumerate().all(|(at, byte)| match at {
            8 | 13 | 18 | 23 => *byte == b'-',
            14 => *byte == b'4',
            _ => byte.is_ascii_digit() || (b'a'..=b'f').contains(byte),
        })
}

#[test]
fn a_new_server_keeps_its_address_and_has_no_subscribers() {
    let server = Server::new(IpAddress::V4([10, 1, 2, 3]), 4000);
    assert_eq!(server.ip(), IpAddress::V4([10, 1, 2, 3]));
    assert_eq!(server.port(), 4000);
    assert!(!server
        .subscribers()
        .is_primary(&ApplicationType::consumer("SMS"), &"a".to_string()));
}

#[test]
fn a_new_server_keeps_an_ipv6_address() {
    let mut octets = [0u8; 16];
    octets[15] = 1;
    let server = Server::new(IpAddress::V6(octets), 1);
    assert_eq!(server.ip(), IpAddress::V6(octets));
    assert_eq!(server.port(), 1);
}

#[test]
fn the_defaults_are_loopback_and_6789() {
    assert_eq!(IpAddress::loopback(), IpAddress::V4([127, 0, 0, 1]));
    assert_eq!(DEFAULT_PORT, 6789);
}

#[test]
fn a_producer_is_admitted_on_its_first_frame() {
    let app = started_producer(Server::on_connect(connect(ApplicationType::Producer)));
    assert_eq!(app.app_type, ApplicationType::Producer);
    assert!(is_hyphenated_random_uuid(&app.app_id));
}

#[test]
fn a_consumer_is_asked_for_its_subscriptions() {
    assert_eq!(
        Server::on_connect(connect(ApplicationType::consumer("SMS"))),
        ConnectDecision::AwaitSubscription(ConsumerKind::new("SMS"))
    );
}

#[test]
fn a_peer_that_leaves_before_its_first_frame_is_abandoned() {
    assert_eq!(Server::on_connect(Inbound::Closed), ConnectDecision::Abandon);
}

#[test]
fn an_unreadable_first_frame_stops_the_acceptor() {
    assert_eq!(
        Server::on_connect(Inbound::Failed),
        ConnectDecision::StopAccepting
    );
}

#[test]
fn a_consumer_is_registered_once_its_subscriptions_arrived() {
    let mut server = server();
    let (app, subscriptions) = started_consumer(server.on_subscription(
        ConsumerKind::new("SMS"),
        subscribe(&["AuctionOutbid", "AuctionUpdate"]),
    ));
    assert_eq!(app.app_type, ApplicationType::consumer("SMS"));
    assert!(is_hyphenated_random_uuid(&app.app_id));
    assert_eq!(
        subscriptions,
        vec![
            MessageKind::new("AuctionOutbid"),
            MessageKind::new("AuctionUpdate")
        ]
    );
    assert!(server.subscribers().is_primary(&app.app_type, &app.app_id));
    assert_eq!(server.ip(), IpAddress::loopback());
    assert_eq!(server.port(), DEFAULT_PORT);
}

#[test]
fn a_consumer_may_subscribe_to_nothing() {
    let mut server = server();
    let (app, subscriptions) =
        started_consumer(server.on_subscription(ConsumerKind::new("SMS"), subscribe(&[])));
    assert!(subscriptions.is_empty());
    assert!(server.subscribers().is_primary(&app.app_type, &app.app_id));
}

#[test]
fn the_second_consumer_of_a_type_is_a_backup() {
    let mut server = server();
    let (first, _) = started_consumer(
        server.on_subscription(ConsumerKind::new("SMS"), subscribe(&["AuctionOutbid"])),
    );
    let (second, _) = started_consumer(
        server.on_subscription(ConsumerKind::new("SMS"), subscribe(&["AuctionOutbid"])),
    );
    assert_ne!(first.app_id, second.app_id);
    assert!(server.subscribers().is_primary(&first.app_type, &first.app_id));
    assert!(!server.subscribers().is_primary(&second.app_type, &second.app_id));
}

#[test]
fn an_unreadable_subscription_frame_costs_only_that_connection() {
    let mut server = server();
    assert_eq!(
        server.on_subscription(ConsumerKind::new("SMS"), Inbound::Failed),
        SubscriptionDecision::Abandon
    );
    let (next, _) = started_consumer(
        server.on_subscription(ConsumerKind::new("SMS"), subscribe(&["AuctionOutbid"])),
    );
    assert!(server.subscribers().is_primary(&next.app_type, &next.app_id));
}

#[test]
fn a_consumer_that_leaves_before_subscribing_is_not_registered() {
    let mut server = server();
    assert_eq!(
        server.on_subscription(ConsumerKind::new("SMS"), Inbound::Closed),
        SubscriptionDecision::Abandon
    );
    let (next, _) = started_consumer(
        server.on_subscription(ConsumerKind::new("SMS"), subscribe(&["AuctionOutbid"])),
    );
    assert!(server.subscribers().is_primary(&next.app_type, &next.app_id));
}

#[test]
fn admitting_a_producer_keeps_the_identity_it_is_given() {
    let app = Server::admit_producer("p-1".to_string());
    assert_eq!(
        app,
        ConnectedApplication {
            app_id: "p-1".to_string(),
            app_type: ApplicationType::Producer
        }
    );
}

#[test]
fn admitting_consumers_records_them_in_order() {
    let mut server = server();
    let a = server.admit_consumer(ConsumerKind::new("SMS"), "a".to_string());
    let b = server.admit_consumer(ConsumerKind::new("SMS"), "b".to_string());
    let c = server.admit_consumer(ConsumerKind::new("Email"), "c".to_string());
    assert_eq!(
        a,
        ConnectedApplication {
            app_id: "a".to_string(),
            app_type: ApplicationType::consumer("SMS")
        }
    );
    assert!(server.subscribers().is_primary(&a.app_type, &a.app_id));
    assert!(!server.subscribers().is_primary(&b.app_type, &b.app_id));
    assert!(server.subscribers().is_primary(&c.app_type, &c.app_id));
}

#[test]
fn identities_are_36_characters_and_differ() {
    let mut seen: Vec<String> = Vec::new();
    for _ in 0..100 {
        let app = started_producer(Server::on_connect(connect(ApplicationType::Producer)));
        assert_eq!(app.app_id.chars().count(), IDENTITY_LENGTH);
        assert_eq!(IDENTITY_LENGTH, 36);
        assert!(!seen.contains(&app.app_id));
        seen.push(app.app_id);
    }
}
