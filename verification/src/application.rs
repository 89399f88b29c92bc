//! Who is on the other end of a connection.

use vstd::prelude::*;

verus! {

/// The sub-kind of a consumer (for instance `"SMS"` or `"Email"`), known to
/// the broker only by its name.
#[derive(Debug, PartialEq, Eq)]
pub struct ConsumerKind {
    pub name: String,
}

impl View for ConsumerKind {
    type V = Seq<char>;

    open spec fn view(&self) -> Seq<char> {
        self.name@
    }
}

impl Clone for ConsumerKind {
    fn clone(&self) -> (copy: Self)
        ensures
            copy@ == self@,
    {
        ConsumerKind { name: self.name.clone() }
    }
}

impl ConsumerKind {
    /// The consumer kind with the given name.
    pub fn new(name: &str) -> (kind: ConsumerKind)
        ensures
            kind@ == name@,
    {
        ConsumerKind { name: name.to_owned() }
    }
}

/// The role a connected party announced in its handshake, as a mathematical
/// value.
pub enum Role {
    Producer,
    Consumer(Seq<char>),
}

/// The role a connected party announced in its handshake.
#[derive(Debug, PartialEq, Eq)]
pub enum ApplicationType {
    Producer,
    Consumer(ConsumerKind),
}

impl View for ApplicationType {
    type V = Role;

    open spec fn view(&self) -> Role {
        match self {
            ApplicationType::Producer => Role::Producer,
            ApplicationType::Consumer(kind) => Role::Consumer(kind@),
        }
    }
}

impl Clone for ApplicationType {
    fn clone(&self) -> (copy: Self)
        ensures
            copy@ == self@,
    {
        match self {
            ApplicationType::Producer => ApplicationType::Producer,
            ApplicationType::Consumer(kind) => ApplicationType::Consumer(kind.clone()),
        }
    }
}

impl ApplicationType {
    /// A consumer of the kind with the given name.
    pub fn consumer(name: &str) -> (app_type: ApplicationType)
        ensures
            app_type@ == Role::Consumer(name@),
    {
        ApplicationType::Consumer(ConsumerKind::new(name))
    }

    /// Whether this party receives events rather than publishing them.
    pub fn is_consumer(&self) -> (yes: bool)
        ensures
            yes == (self@ is Consumer),
    {
        match self {
            ApplicationType::Consumer(_) => true,
            ApplicationType::Producer => false,
        }
    }

    /// Structural equality: the same role and, for consumers, the same kind.
    pub fn same(&self, other: &ApplicationType) -> (equal: bool)
        ensures
            equal == (self@ == other@),
    {
        match (self, other) {
            (ApplicationType::Producer, ApplicationType::Producer) => true,
            (ApplicationType::Consumer(a), ApplicationType::Consumer(b)) => a.name == b.name,
            _ => false,
        }
    }
}

} // verus!
