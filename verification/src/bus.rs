//! The broadcast bus: one bounded channel, created when the broker starts,
//! on which every producer publishes and from which every consumer reads
//! through a cursor of its own.

use crate::message::NotificationMessage;
use tokio::sync::broadcast::Sender;
use vstd::prelude::*;

verus! {

/// How many notifications the bus holds for a consumer that has fallen
/// behind, before it starts dropping that consumer's oldest ones.
pub const BUS_CAPACITY: usize = 32;

/// The publishing end of the bus, `tokio::sync::broadcast::Sender`. It is
/// carried around and handed to `send`; nothing inside it is visible here.
#[verifier::external_type_specification]
#[verifier::external_body]
#[verifier::reject_recursive_types(T)]
pub struct ExSender<T>(tokio::sync::broadcast::Sender<T>);

/// Hands `message` to every receiver that is subscribed right now.
///
/// Trusted: the body calls `tokio::sync::broadcast::Sender::send`. That call
/// never blocks. With at least one live receiver it stores the value and
/// returns how many receivers there are, which is then at least one; with
/// none it returns the value, untouched, inside its error. How many receivers
/// there are depends on what other tasks did, so the contract says only what
/// holds either way.
#[verifier::external_body]
pub(crate) fn send(bus: &Sender<NotificationMessage>, message: NotificationMessage) -> (result:
    Result<usize, NotificationMessage>)
    ensures
        result matches Ok(receivers) ==> receivers >= 1,
        result matches Err(returned) ==> returned == message,
{
    bus.send(message).map_err(|refused| refused.0)
}

} // verus!
