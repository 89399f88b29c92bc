use notification_broker::application::ConsumerKind;
use notification_broker::connection::ConnectedApplication;
use notification_broker::consumer::{
    egress_step, first_subscription, EgressAction, EgressEvent, EgressStop,
};
use notification_broker::frame::MAX_FRAME_LENGTH;
use notification_broker::message::{MessageKind, NotificationMessage};
use notification_broker::server::{IpAddress, Server, DEFAULT_PORT};

fn kinds(names: &[&str]) -> Vec<MessageKind> {
    names.iter().map(|name| MessageKind::new(name)).collect()
}

fn message(kind: &str, body: &[u8]) -> EgressEvent {
    EgressEvent::Message(NotificationMessage {
        kind: MessageKind::new(kind),
        body: body.to_vec(),
    })
}

/// A broker with primary `a` and backup `b` for SMS, and primary `c` for Email.
fn broker() -> (
    Server,
    ConnectedApplication,
    ConnectedApplication,
    ConnectedApplication,
) {
    let mut server = Server::new(IpAddress::loopback(), DEFAULT_PORT);
    let a = server.admit_consumer(ConsumerKind::new("SMS"), "a".to_string());
    let b = server.admit_consumer(ConsumerKind::new("SMS"), "b".to_string());
    let c = server.admit_consumer(ConsumerKind::new("Email"), "c".to_string());
    (server, a, b, c)
}

#[test]
fn the_first_matching_subscription_is_found() {
    let subscriptions = kinds(&["AuctionUpdate", "AuctionOutbid", "AuctionOutbid"]);
    assert_eq!(
        first_subscription(&subscriptions, &MessageKind::new("AuctionOutbid")),
        Some(1)
    );
    assert_eq!(
        first_subscription(&subscriptions, &MessageKind::new("AuctionUpdate")),
        Some(0)
    );
    assert_eq!(
        first_subscription(&subscriptions, &MessageKind::new("ValidateEmail")),
        None
    );
    assert_eq!(
        first_subscription(&kinds(&[]), &MessageKind::new("AuctionOutbid")),
        None
    );
}

#[test]
fn kinds_match_by_their_whole_name() {
    let subscriptions = kinds(&["Auction", "auctionoutbid", "AuctionOutbid "]);
    assert_eq!(
        first_subscription(&subscriptions, &MessageKind::new("AuctionOutbid")),
        None
    );
    assert!(MessageKind::new("AuctionOutbid").same(&MessageKind::new("AuctionOutbid")));
    assert!(!MessageKind::new("AuctionOutbid").same(&MessageKind::new("AuctionUpdate")));
}

#[test]
fn the_primary_forwards_a_subscribed_kind_as_one_frame() {
    let (server, a, _, _) = broker();
    let action = egress_step(
        server.subscribers(),
        &a,
        &kinds(&["AuctionOutbid"]),
        message("AuctionOutbid", b"{\"x\":1}"),
    );
    assert_eq!(
        action,
        EgressAction::Forward(vec![
            0, 0, 0, 7, b'{', b'"', b'x', b'"', b':', b'1', b'}'
        ])
    );
}

#[test]
fn the_primary_drops_a_kind_it_did_not_subscribe_to() {
    let (server, a, _, _) = broker();
    let action = egress_step(
        server.subscribers(),
        &a,
        &kinds(&["AuctionUpdate"]),
        message("AuctionOutbid", b"{}"),
    );
    assert_eq!(action, EgressAction::Discard);
}

#[test]
fn a_consumer_without_subscriptions_drops_everything() {
    let (server, a, _, _) = broker();
    let action = egress_step(
        server.subscribers(),
        &a,
        &kinds(&[]),
        message("AuctionOutbid", b"{}"),
    );
    assert_eq!(action, EgressAction::Discard);
}

#[test]
fn a_backup_drops_what_it_subscribed_to() {
    let (server, _, b, _) = broker();
    let action = egress_step(
        server.subscribers(),
        &b,
        &kinds(&["AuctionOutbid"]),
        message("AuctionOutbid", b"{}"),
    );
    assert_eq!(action, EgressAction::Discard);
}

#[test]
fn a_duplicated_subscription_still_gives_one_frame() {
    let (server, a, _, _) = broker();
    let action = egress_step(
        server.subscribers(),
        &a,
        &kinds(&["AuctionOutbid", "AuctionOutbid", "AuctionOutbid"]),
        message("AuctionOutbid", b"ab"),
    );
    assert_eq!(action, EgressAction::Forward(vec![0, 0, 0, 2, b'a', b'b']));
}

#[test]
fn the_primary_of_another_type_forwards_too() {
    let (server, a, _, c) = broker();
    let subscriptions = kinds(&["AuctionOutbid"]);
    assert_eq!(
        egress_step(
            server.subscribers(),
            &a,
            &subscriptions,
            message("AuctionOutbid", b"z")
        ),
        EgressAction::Forward(vec![0, 0, 0, 1, b'z'])
    );
    assert_eq!(
        egress_step(
            server.subscribers(),
            &c,
            &subscriptions,
            message("AuctionOutbid", b"z")
        ),
        EgressAction::Forward(vec![0, 0, 0, 1, b'z'])
    );
}

#[test]
fn a_consumer_that_never_registered_forwards_nothing() {
    let (server, _, _, _) = broker();
    let stranger = ConnectedApplication {
        app_id: "x".to_string(),
        app_type: notification_broker::application::ApplicationType::consumer("Push"),
    };
    let action = egress_step(
        server.subscribers(),
        &stranger,
        &kinds(&["AuctionOutbid"]),
        message("AuctionOutbid", b"{}"),
    );
    assert_eq!(action, EgressAction::Discard);
}

#[test]
fn a_lag_notice_is_reported_and_the_task_goes_on() {
    let (server, a, b, _) = broker();
    let subscriptions = kinds(&["AuctionOutbid"]);
    assert_eq!(
        egress_step(server.subscribers(), &a, &subscriptions, EgressEvent::Lagged(8)),
        EgressAction::ReportLag(8)
    );
    assert_eq!(
        egress_step(server.subscribers(), &b, &subscriptions, EgressEvent::Lagged(1)),
        EgressAction::ReportLag(1)
    );
}

#[test]
fn a_closed_bus_ends_the_task() {
    let (server, a, b, _) = broker();
    let subscriptions = kinds(&["AuctionOutbid"]);
    assert_eq!(
        egress_step(server.subscribers(), &a, &subscriptions, EgressEvent::BusClosed),
        EgressAction::Terminate(EgressStop::BusClosed)
    );
    assert_eq!(
        egress_step(server.subscribers(), &b, &subscriptions, EgressEvent::BusClosed),
        EgressAction::Terminate(EgressStop::BusClosed)
    );
}

#[test]
fn a_failed_write_ends_the_task() {
    let (server, a, _, _) = broker();
    assert_eq!(
        egress_step(
            server.subscribers(),
            &a,
            &kinds(&["AuctionOutbid"]),
            EgressEvent::WriteFailed
        ),
        EgressAction::Terminate(EgressStop::WriteFailed)
    );
}

#[test]
fn a_notification_too_large_for_a_frame_ends_the_primary_task() {
    let (server, a, _, _) = broker();
    let body = vec![b' '; MAX_FRAME_LENGTH + 1];
    assert_eq!(
        egress_step(
            server.subscribers(),
            &a,
            &kinds(&["AuctionOutbid"]),
            message("AuctionOutbid", &body)
        ),
        EgressAction::Terminate(EgressStop::FrameTooLarge)
    );
}

#[test]
fn a_notification_too_large_for_a_frame_is_dropped_by_those_who_would_not_forward() {
    let (server, a, b, _) = broker();
    let body = vec![b' '; MAX_FRAME_LENGTH + 1];
    assert_eq!(
        egress_step(
            server.subscribers(),
            &b,
            &kinds(&["AuctionOutbid"]),
            message("AuctionOutbid", &body)
        ),
        EgressAction::Discard
    );
    assert_eq!(
        egress_step(
            server.subscribers(),
            &a,
            &kinds(&["AuctionUpdate"]),
            message("AuctionOutbid", &body)
        ),
        EgressAction::Discard
    );
}
