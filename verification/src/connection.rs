//! What the broker knows of one accepted connection.

use crate::application::{ApplicationType, Role};
use vstd::prelude::*;

verus! {

/// What came of reading the next frame of a connection as a message of
/// type `T`.
#[derive(Debug, PartialEq, Eq)]
pub enum Inbound<T> {
    /// A whole frame arrived and its payload decoded as a `T`.
    Message(T),
    /// The peer closed the connection and no frame was cut short by it.
    Closed,
    /// The read failed: an I/O error, a broken or oversized frame, or a
    /// payload that does not decode as a `T`.
    Failed,
}

/// A connection that completed its handshake, as a mathematical value.
pub struct Connection {
    pub id: Seq<char>,
    pub role: Role,
}

/// A connection that completed its handshake: the identity the broker drew
/// for it, and the role it announced.
#[derive(Debug, PartialEq, Eq)]
pub struct ConnectedApplication {
    pub app_id: String,
    pub app_type: ApplicationType,
}

impl View for ConnectedApplication {
    type V = Connection;

    open spec fn view(&self) -> Connection {
        Connection { id: self.app_id@, role: self.app_type@ }
    }
}

} // verus!
