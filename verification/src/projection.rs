//! Projections: state folded from the events of a stream. A stored event is
//! recognised by the first of a projection's event types whose identifier it
//! carries, decoded as that type, and dispatched to the projection's update for
//! that type, together with its position and timestamp.

use vstd::prelude::*;

use crate::store::{
    Error,
    Identifier,
    PersistentEvent,
    Position,
    Timestamp,
};

verus! {

/// Updates a projection with one event of type `E`.
pub trait Update<E> {
    fn update(&mut self, event: UpdateEvent<'_, E>);
}

/// An event handed to a projection's update, with where and when it was stored.
pub struct UpdateEvent<'a, E> {
    event: &'a E,
    position: Position,
    timestamp: Timestamp,
}

impl<'a, E> UpdateEvent<'a, E> {
    pub fn new(event: &'a E, position: Position, timestamp: Timestamp) -> (r: UpdateEvent<'a, E>)
        ensures
            *r.spec_event() == *event,
            r.spec_position() == position,
            r.spec_timestamp() == timestamp,
    {
        UpdateEvent { event, position, timestamp }
    }

    pub closed spec fn spec_event(&self) -> &'a E {
        self.event
    }

    pub closed spec fn spec_position(&self) -> Position {
        self.position
    }

    pub closed spec fn spec_timestamp(&self) -> Timestamp {
        self.timestamp
    }

    /// The event itself.
    pub fn event(&self) -> (r: &'a E)
        ensures
            *r == *self.spec_event(),
    {
        self.event
    }

    pub fn position(&self) -> (r: &Position)
        ensures
            *r == self.spec_position(),
    {
        &self.position
    }

    pub fn timestamp(&self) -> (r: &Timestamp)
        ensures
            *r == self.spec_timestamp(),
    {
        &self.timestamp
    }
}

/// A recognised event on its way to a projection: the decoded event, held in
/// whatever form lets each update pick out its own type, with its position and
/// timestamp.
pub struct DispatchEvent<P> {
    pub event: P,
    pub position: Position,
    pub timestamp: Timestamp,
}

impl<P> DispatchEvent<P> {
    pub fn new(event: P, position: Position, timestamp: Timestamp) -> (r: DispatchEvent<P>)
        ensures
            r == (DispatchEvent { event, position, timestamp }),
    {
        DispatchEvent { event, position, timestamp }
    }

    /// The dispatch event of a stored event, given what decoding it yielded.
    pub fn from_decoded(decoded: Result<P, Error>, event: &PersistentEvent) -> (r: Result<DispatchEvent<P>, Error>)
        ensures
            match decoded {
                Ok(p) => r == Ok::<DispatchEvent<P>, Error>(
                    DispatchEvent { event: p, position: event.position, timestamp: event.timestamp },
                ),
                Err(e) => r == Err::<DispatchEvent<P>, Error>(e),
            },
    {
        match decoded {
            Ok(p) => Ok(DispatchEvent::new(p, event.position(), event.timestamp())),
            Err(e) => Err(e),
        }
    }

    /// The update event for `event`, the dispatched event taken as its own type.
    pub fn update_event<'a, E>(&self, event: &'a E) -> (r: UpdateEvent<'a, E>)
        ensures
            *r.spec_event() == *event,
            r.spec_position() == self.position,
            r.spec_timestamp() == self.timestamp,
    {
        UpdateEvent::new(event, self.position, self.timestamp)
    }
}

/// Whether the search over `candidates` for `identifier` passes index `j`:
/// the candidate identifier was had and is another one.
pub open spec fn passes(candidates: Seq<Result<Identifier, Error>>, identifier: Identifier, j: int) -> bool {
    candidates[j] matches Ok(c) && c.name@ != identifier.name@
}

/// Which of a projection's event types, given the outcomes of asking each for
/// its identifier in order, a stored event with `identifier` is recognised as:
/// the first that carries it; the first failure to get an identifier ends the
/// search with that failure; none, if all were had and none matched.
pub fn recognize_position(candidates: &Vec<Result<Identifier, Error>>, identifier: &Identifier) -> (r: Result<Option<usize>, Error>)
    ensures
        match r {
            Ok(Some(k)) => {
                &&& k < candidates@.len()
                &&& candidates@[k as int] is Ok
                &&& candidates@[k as int]->Ok_0.name@ == identifier.name@
                &&& forall|j: int| 0 <= j < k ==> passes(candidates@, *identifier, j)
            },
            Ok(None) => forall|j: int| 0 <= j < candidates@.len() ==> passes(candidates@, *identifier, j),
            Err(e) => exists|k: int|
                0 <= k < candidates@.len() && candidates@[k] == Err::<Identifier, Error>(e) && forall|j: int|
                    0 <= j < k ==> passes(candidates@, *identifier, j),
        },
{
    let mut i: usize = 0;
    while i < candidates.len()
        invariant
            i <= candidates@.len(),
            forall|j: int| 0 <= j < i ==> passes(candidates@, *identifier, j),
        decreases candidates@.len() - i,
    {
        match &candidates[i] {
            Ok(c) => {
                if c.same(identifier) {
                    return Ok(Some(i));
                }
            },
            Err(e) => {
                let e = e.duplicate();
                assert(candidates@[i as int] == Err::<Identifier, Error>(e));
                return Err(e);
            },
        }
        i = i + 1;
    }
    Ok(None)
}

/// The first index whose flag is set: the update that a dispatched event goes
/// to, given for each of a projection's event types in order whether the event
/// is of that type.
pub fn first_set(flags: &Vec<bool>) -> (r: Option<usize>)
    ensures
        match r {
            Some(k) => k < flags@.len() && flags@[k as int] && forall|j: int| 0 <= j < k ==> !flags@[j],
            None => forall|j: int| 0 <= j < flags@.len() ==> !flags@[j],
        },
{
    let mut i: usize = 0;
    while i < flags.len()
        invariant
            i <= flags@.len(),
            forall|j: int| 0 <= j < i ==> !flags@[j],
        decreases flags@.len() - i,
    {
        if flags[i] {
            return Some(i);
        }
        i = i + 1;
    }
    None
}

/// When a projection's event types all have identifiers and no two share one,
/// a stored event carrying the identifier of the type at `k` passes every
/// earlier type, so it is recognised as that type.
pub proof fn law_distinct_types_recognise_their_own(candidates: Seq<Result<Identifier, Error>>, k: int)
    requires
        0 <= k < candidates.len(),
        forall|j: int| 0 <= j < candidates.len() ==> candidates[j] is Ok,
        forall|i: int, j: int|
            0 <= i < j < candidates.len() ==> candidates[i]->Ok_0.name@ != candidates[j]->Ok_0.name@,
    ensures
        forall|j: int| 0 <= j < k ==> passes(candidates, candidates[k]->Ok_0, j),
{
}

} // verus!
