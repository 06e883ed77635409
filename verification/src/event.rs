//! Events: how a type of event names itself and tags its values, and the
//! envelope logic of encoding and decoding (the serialization of an event's
//! body belongs to the codec that the caller chose).

use vstd::prelude::*;

use crate::store::{
    CandidateEvent,
    Data,
    Error,
    Identifier,
    PersistentEvent,
    Position,
    Specifier,
    Tag,
    Timestamp,
    Version,
};

verus! {

/// A type of event that has a stored identifier.
pub trait Identified {
    fn identifier() -> Result<Identifier, Error>;
}

/// A type of event that can be selected by a specifier.
pub trait Specified {
    fn specifier() -> Result<Specifier, Error>;
}

/// A value of an event that carries tags.
pub trait Tagged {
    fn tags(&self) -> Result<Vec<Tag>, Error>;
}

/// An event: identified and tagged.
pub trait Event: Identified + Tagged {
}

/// The codec that writes event bodies as JSON. Its serialization runs through
/// each event type's serde implementation, outside this library; the library
/// holds the envelope around it.
#[derive(Debug)]
pub struct JsonCodec;

/// The specifier of a type whose identifier came back as `identifier`.
pub open spec fn spec_specifier(identifier: Result<Identifier, Error>) -> Result<Specifier, Error> {
    match identifier {
        Ok(identifier) => Ok(Specifier { identifier }),
        Err(e) => Err(e),
    }
}

pub fn specifier_from(identifier: Result<Identifier, Error>) -> (r: Result<Specifier, Error>)
    ensures
        r == spec_specifier(identifier),
{
    match identifier {
        Ok(identifier) => Ok(Specifier::new(identifier)),
        Err(e) => Err(e),
    }
}

impl<T: Identified> Specified for T {
    /// The specifier of the identifier that `T` gives.
    fn specifier() -> (r: Result<Specifier, Error>)
        ensures
            exists|id: Result<Identifier, Error>|
                #![trigger spec_specifier(id)]
                call_ensures(T::identifier, (), id) && r == spec_specifier(id),
    {
        let identifier = T::identifier();
        let ghost id = identifier;
        let r = specifier_from(identifier);
        assert(call_ensures(T::identifier, (), id) && r == spec_specifier(id));
        r
    }
}

/// The candidate event built from the results of serializing an event's body,
/// asking its type for its identifier and asking it for its tags: the first
/// failure in that order, or the event at the initial version.
pub open spec fn spec_encode(
    data: Result<Data, Error>,
    identifier: Result<Identifier, Error>,
    tags: Result<Vec<Tag>, Error>,
) -> Result<CandidateEvent, Error> {
    match data {
        Err(e) => Err(e),
        Ok(data) => match identifier {
            Err(e) => Err(e),
            Ok(identifier) => match tags {
                Err(e) => Err(e),
                Ok(tags) => Ok(
                    CandidateEvent { data, identifier, tags, version: Version::spec_default() },
                ),
            },
        },
    }
}

pub fn encode_parts(
    data: Result<Data, Error>,
    identifier: Result<Identifier, Error>,
    tags: Result<Vec<Tag>, Error>,
) -> (r: Result<CandidateEvent, Error>)
    ensures
        r == spec_encode(data, identifier, tags),
{
    let data = match data {
        Ok(data) => data,
        Err(e) => return Err(e),
    };
    let identifier = match identifier {
        Ok(identifier) => identifier,
        Err(e) => return Err(e),
    };
    let tags = match tags {
        Ok(tags) => tags,
        Err(e) => return Err(e),
    };
    Ok(CandidateEvent { data, identifier, tags, version: Version::initial() })
}

/// Encodes `event`, whose body the codec serialized into `data`: its type's
/// identifier is asked for only when the body was serialized, and its tags
/// only when the identifier was had.
pub fn encode<E: Event>(event: &E, data: Result<Data, Error>) -> (r: Result<CandidateEvent, Error>)
    ensures
        data is Err ==> r is Err && r->Err_0 == data->Err_0,
        data is Ok ==> exists|id: Result<Identifier, Error>, ts: Result<Vec<Tag>, Error>|
            call_ensures(E::identifier, (), id) && (id is Ok ==> call_ensures(E::tags, (event,), ts))
                && r == spec_encode(data, id, ts),
{
    let ghost given = data;
    let data = match data {
        Ok(data) => data,
        Err(e) => return Err(e),
    };
    let identifier = E::identifier();
    let ghost id = identifier;
    let identifier = match identifier {
        Ok(identifier) => identifier,
        Err(e) => {
            assert(call_ensures(E::identifier, (), id));
            assert(spec_encode(given, id, Err(Error::Serialization)) == Err::<CandidateEvent, Error>(e));
            return Err(e);
        },
    };
    let tags = event.tags();
    assert(call_ensures(E::tags, (event,), tags));
    encode_parts(Ok(data), Ok(identifier), tags)
}

/// What decoding a stored event as a type whose identifier came back as
/// `expected` yields before the body is deserialized: the failure to get the
/// identifier, a mismatch, or the data to deserialize.
pub open spec fn spec_decode_guard(expected: Result<Identifier, Error>, event: PersistentEvent) -> Result<Data, Error> {
    match expected {
        Err(e) => Err(e),
        Ok(id) => if id.name@ == event.identifier.name@ {
            Ok(event.data)
        } else {
            Err(Error::IdentifierMismatch)
        },
    }
}

pub fn decode_guard<'a>(expected: Result<Identifier, Error>, event: &'a PersistentEvent) -> (r: Result<&'a Data, Error>)
    ensures
        match (r, spec_decode_guard(expected, *event)) {
            (Ok(d), Ok(e)) => *d == e,
            (Err(a), Err(b)) => a == b,
            _ => false,
        },
{
    match expected {
        Err(e) => Err(e),
        Ok(id) => {
            if event.identifier().same(&id) {
                Ok(event.data())
            } else {
                Err(Error::IdentifierMismatch)
            }
        },
    }
}

/// The data of `event` when it is stored under the identifier of `E`.
pub fn decode_data_of<'a, E: Identified>(event: &'a PersistentEvent) -> (r: Result<&'a Data, Error>)
    ensures
        exists|id: Result<Identifier, Error>|
            #![trigger spec_decode_guard(id, *event)]
            call_ensures(E::identifier, (), id) && match (r, spec_decode_guard(id, *event)) {
                (Ok(d), Ok(e)) => *d == e,
                (Err(a), Err(b)) => a == b,
                _ => false,
            },
{
    let identifier = E::identifier();
    let ghost id = identifier;
    let r = decode_guard(identifier, event);
    assert(call_ensures(E::identifier, (), id) && match (r, spec_decode_guard(id, *event)) {
        (Ok(d), Ok(e)) => *d == e,
        (Err(a), Err(b)) => a == b,
        _ => false,
    });
    r
}

/// An event stored as encoded from a value of some type passes the identifier
/// check of a type with the same identifier and hands back the data it was
/// encoded with; checked as a type with another identifier, it is refused as a
/// mismatch.
pub proof fn law_decode_after_encode(
    data: Data,
    identifier: Identifier,
    tags: Vec<Tag>,
    expected: Identifier,
    position: Position,
    timestamp: Timestamp,
)
    ensures
        ({
            let c = spec_encode(Ok(data), Ok(identifier), Ok(tags))->Ok_0;
            let stored = PersistentEvent {
                data: c.data,
                identifier: c.identifier,
                tags: c.tags,
                version: c.version,
                position,
                timestamp,
            };
            &&& spec_encode(Ok(data), Ok(identifier), Ok(tags)) is Ok
            &&& expected.name@ == identifier.name@ ==> spec_decode_guard(Ok(expected), stored)
                == Ok::<Data, Error>(data)
            &&& expected.name@ != identifier.name@ ==> spec_decode_guard(Ok(expected), stored)
                == Err::<Data, Error>(Error::IdentifierMismatch)
        }),
{
}

} // verus!
