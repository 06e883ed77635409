//! The values that the library exchanges with an event store: positions,
//! identifiers, tags, data and the events themselves, held as plain values.

use vstd::prelude::*;

verus! {

/// The position of a persisted event in the stream.
#[derive(Clone, Copy, Debug, PartialEq, Eq, Structural)]
pub struct Position(pub u64);

/// The time at which a persisted event was appended, as the store reports it.
#[derive(Clone, Copy, Debug, PartialEq, Eq, Structural)]
pub struct Timestamp(pub u64);

/// The version of an event's schema.
#[derive(Clone, Copy, Debug, PartialEq, Eq, Structural)]
pub struct Version(pub u32);

impl Version {
    /// The version given to every event that the library encodes: versioning
    /// is not modelled yet, so it is always zero.
    pub open spec fn spec_default() -> Version {
        Version(0)
    }

    pub fn initial() -> (v: Version)
        ensures
            v == Version::spec_default(),
    {
        Version(0)
    }
}

/// Errors that the library reports.
#[derive(Debug)]
pub enum Error {
    /// An event could not be serialized.
    Serialization,
    /// Stored data could not be deserialized into the requested event type.
    Deserialization,
    /// A stored event was decoded as a type whose identifier it does not carry.
    IdentifierMismatch,
    /// A data error reported by the store, with its message.
    Data(String),
    /// Any other error reported by the store, with its message.
    Store(String),
}

impl Error {
    pub fn duplicate(&self) -> (r: Error)
        ensures
            r == *self,
    {
        match self {
            Error::Serialization => Error::Serialization,
            Error::Deserialization => Error::Deserialization,
            Error::IdentifierMismatch => Error::IdentifierMismatch,
            Error::Data(m) => Error::Data(m.clone()),
            Error::Store(m) => Error::Store(m.clone()),
        }
    }
}

/// The name under which a type of event is stored.
#[derive(Debug)]
pub struct Identifier {
    pub name: String,
}

impl Identifier {
    pub fn new(name: String) -> (r: Identifier)
        ensures
            r.name == name,
    {
        Identifier { name }
    }

    /// Whether two identifiers name the same type of event.
    pub fn same(&self, other: &Identifier) -> (r: bool)
        ensures
            r == (self.name@ == other.name@),
    {
        self.name == other.name
    }

    pub fn duplicate(&self) -> (r: Identifier)
        ensures
            r == *self,
    {
        Identifier { name: self.name.clone() }
    }
}

/// A tag attached to an event: a prefix and a value.
#[derive(Debug)]
pub struct Tag {
    pub prefix: String,
    pub value: String,
}

impl Tag {
    pub fn duplicate(&self) -> (r: Tag)
        ensures
            r == *self,
    {
        Tag { prefix: self.prefix.clone(), value: self.value.clone() }
    }
}

/// Selects the events of one type by its identifier.
#[derive(Debug)]
pub struct Specifier {
    pub identifier: Identifier,
}

impl Specifier {
    pub fn new(identifier: Identifier) -> (r: Specifier)
        ensures
            r.identifier == identifier,
    {
        Specifier { identifier }
    }
}

/// The serialized body of an event.
#[derive(Debug)]
pub struct Data {
    pub bytes: Vec<u8>,
}

/// An event that has been encoded and waits to be appended.
#[derive(Debug)]
pub struct CandidateEvent {
    pub data: Data,
    pub identifier: Identifier,
    pub tags: Vec<Tag>,
    pub version: Version,
}

/// An event as it was read back from the stream.
#[derive(Debug)]
pub struct PersistentEvent {
    pub data: Data,
    pub identifier: Identifier,
    pub tags: Vec<Tag>,
    pub version: Version,
    pub position: Position,
    pub timestamp: Timestamp,
}

impl PersistentEvent {
    pub fn position(&self) -> (r: Position)
        ensures
            r == self.position,
    {
        self.position
    }

    pub fn timestamp(&self) -> (r: Timestamp)
        ensures
            r == self.timestamp,
    {
        self.timestamp
    }

    pub fn identifier(&self) -> (r: &Identifier)
        ensures
            *r == self.identifier,
    {
        &self.identifier
    }

    pub fn data(&self) -> (r: &Data)
        ensures
            *r == self.data,
    {
        &self.data
    }
}

/// An event read for a request of several selections, with the selections
/// that it matched.
#[derive(Debug)]
pub struct EventMasked {
    pub event: PersistentEvent,
    pub mask: Vec<bool>,
}

/// One selection of events: the types it admits and the tags that each
/// admitted event must carry (none: no tag is required).
#[derive(Debug)]
pub struct Selection {
    pub specifiers: Vec<Specifier>,
    pub tags: Vec<Tag>,
}

/// The selections that an action reads before it decides.
#[derive(Debug)]
pub struct Selections {
    pub selections: Vec<Selection>,
}

} // verus!
