//! What holds of the broker as a whole, proved from the definitions that the
//! contracts of its functions are stated in.

use crate::application::Role;
use crate::connection::Connection;
use crate::consumer::{egress, forwards_for_its_type, Action, Event};
use crate::frame::{frame, lemma_frame_round_trip, parse, Parse, MAX_FRAME_LENGTH};
use crate::message::Notification;
use crate::registry::{primary, registered, with_registration};
use vstd::prelude::*;

verus! {

/// Registration only appends: whoever registers, under whatever type, every
/// list keeps all its identities in their places.
pub proof fn law_registry_is_append_only(
    subscribers: Map<Role, Seq<Seq<char>>>,
    role: Role,
    id: Seq<char>,
    other: Role,
)
    ensures
        registered(subscribers, other).is_prefix_of(
            registered(with_registration(subscribers, role, id), other),
        ),
        other != role ==> registered(with_registration(subscribers, role, id), other)
            == registered(subscribers, other),
        registered(with_registration(subscribers, role, id), role) == registered(
            subscribers,
            role,
        ).push(id),
{
}

/// The first identity registered under a type becomes its primary, and a
/// type that has a primary keeps it through every later registration.
pub proof fn law_primary_is_first_and_stays(
    subscribers: Map<Role, Seq<Seq<char>>>,
    role: Role,
    id: Seq<char>,
    other: Role,
)
    ensures
        primary(subscribers, role) is None ==> primary(
            with_registration(subscribers, role, id),
            role,
        ) == Some(id),
        primary(subscribers, other) is Some ==> primary(
            with_registration(subscribers, role, id),
            other,
        ) == primary(subscribers, other),
{
}

/// Only the first-registered connection of a type ever forwards: whatever
/// the event and whatever the subscriptions, a connection that forwards is
/// the first in the list of its type.
pub proof fn law_only_the_primary_forwards(
    subscribers: Map<Role, Seq<Seq<char>>>,
    app: Connection,
    subscriptions: Seq<Seq<char>>,
    event: Event,
)
    requires
        egress(subscribers, app, subscriptions, event) is Forward,
    ensures
        registered(subscribers, app.role).len() >= 1,
        registered(subscribers, app.role)[0] == app.id,
{
}

/// Of two connections of one application type that carry different
/// identities, at most one forwards a given notification.
pub proof fn law_primary_exclusive(
    subscribers: Map<Role, Seq<Seq<char>>>,
    role: Role,
    one: Seq<char>,
    other: Seq<char>,
    subscriptions_of_one: Seq<Seq<char>>,
    subscriptions_of_other: Seq<Seq<char>>,
    message: Notification,
)
    requires
        one != other,
    ensures
        !(egress(
            subscribers,
            Connection { id: one, role },
            subscriptions_of_one,
            Event::Message(message),
        ) is Forward && egress(
            subscribers,
            Connection { id: other, role },
            subscriptions_of_other,
            Event::Message(message),
        ) is Forward),
{
}

/// A backup never forwards: of the connections registered under a type, one
/// that came later than the first, under another identity, forwards nothing,
/// whatever arrives and whatever it subscribed to.
pub proof fn law_backups_never_forward(
    subscribers: Map<Role, Seq<Seq<char>>>,
    role: Role,
    place: int,
    subscriptions: Seq<Seq<char>>,
    event: Event,
)
    requires
        0 < place < registered(subscribers, role).len(),
        registered(subscribers, role)[place] != registered(subscribers, role)[0],
    ensures
        !(egress(
            subscribers,
            Connection { id: registered(subscribers, role)[place], role },
            subscriptions,
            event,
        ) is Forward),
{
}

/// A notification of a kind that a consumer did not subscribe to is dropped
/// by that consumer, primary or not.
pub proof fn law_unsubscribed_kinds_are_dropped(
    subscribers: Map<Role, Seq<Seq<char>>>,
    app: Connection,
    subscriptions: Seq<Seq<char>>,
    message: Notification,
)
    requires
        !subscriptions.contains(message.kind),
    ensures
        egress(subscribers, app, subscriptions, Event::Message(message)) == Action::Discard,
{
}

/// Consumers of different application types do not compete: when each is
/// the primary of its own type, each forwards its own copy of a notification
/// whose kind both subscribed to.
pub proof fn law_cross_type_fan_out(
    subscribers: Map<Role, Seq<Seq<char>>>,
    one: Connection,
    other: Connection,
    subscriptions_of_one: Seq<Seq<char>>,
    subscriptions_of_other: Seq<Seq<char>>,
    message: Notification,
)
    requires
        one.role != other.role,
        forwards_for_its_type(subscribers, one),
        forwards_for_its_type(subscribers, other),
        subscriptions_of_one.contains(message.kind),
        subscriptions_of_other.contains(message.kind),
        message.body.len() <= MAX_FRAME_LENGTH,
    ensures
        egress(subscribers, one, subscriptions_of_one, Event::Message(message)) == Action::Forward(
            frame(message.body),
        ),
        egress(subscribers, other, subscriptions_of_other, Event::Message(message))
            == Action::Forward(frame(message.body)),
{
}

/// The first consumer to register under each of two different application
/// types is the primary of its type, in whichever order the two register and
/// whoever else is registered under other types.
pub proof fn law_first_of_each_type_is_primary(
    subscribers: Map<Role, Seq<Seq<char>>>,
    one: Connection,
    other: Connection,
)
    requires
        one.role != other.role,
        primary(subscribers, one.role) is None,
        primary(subscribers, other.role) is None,
    ensures
        ({
            let both = with_registration(
                with_registration(subscribers, one.role, one.id),
                other.role,
                other.id,
            );
            forwards_for_its_type(both, one) && forwards_for_its_type(both, other)
        }),
{
}

/// What a consumer is sent is what was published: the bytes that are
/// forwarded are one frame and nothing else, and the payload read back from
/// that frame is the notification's body, byte for byte.
pub proof fn law_payload_fidelity(
    subscribers: Map<Role, Seq<Seq<char>>>,
    app: Connection,
    subscriptions: Seq<Seq<char>>,
    message: Notification,
)
    requires
        egress(subscribers, app, subscriptions, Event::Message(message)) is Forward,
    ensures
        parse(egress(subscribers, app, subscriptions, Event::Message(message))->Forward_0) == (
        Parse::Frame { payload: message.body, rest: Seq::<u8>::empty() }),
{
    lemma_frame_round_trip(message.body, Seq::<u8>::empty());
    assert(frame(message.body) + Seq::<u8>::empty() == frame(message.body));
}

/// A backup stays alive: as long as notifications or lag notices arrive, a
/// connection that is not the primary of its type drops or logs them and
/// goes on. It never forwards and it never ends its task over them.
pub proof fn law_backup_survives(
    subscribers: Map<Role, Seq<Seq<char>>>,
    app: Connection,
    subscriptions: Seq<Seq<char>>,
    event: Event,
)
    requires
        !forwards_for_its_type(subscribers, app),
    ensures
        event is Message ==> egress(subscribers, app, subscriptions, event) == Action::Discard,
        event matches Event::Lagged(missed) ==> egress(subscribers, app, subscriptions, event)
            == Action::ReportLag(missed),
        egress(subscribers, app, subscriptions, event) is Terminate ==> event is BusClosed
            || event is WriteFailed,
{
}

} // verus!
