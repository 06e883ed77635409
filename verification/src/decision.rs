//! Decisions: a decision builds a context, selects the events it needs, is
//! updated with each of them, and executes, appending new events to the
//! context's `Events`.

use vstd::prelude::*;

use crate::event::{
    encode,
    spec_encode,
    Event,
};
use crate::store::{
    CandidateEvent,
    Data,
    Error,
    EventMasked,
    Identifier,
    Selections,
    Tag,
};

verus! {

/// The state that a decision or an action builds up while it runs.
pub trait Context {
    type Context;

    fn context(&self) -> Self::Context;

    /// The events that the context collected.
    fn into_events(context: Self::Context) -> Events;
}

/// Chooses the events that are read before deciding.
pub trait Select: Context {
    fn select(&self, context: &Self::Context) -> Result<Selections, Error>;
}

/// Folds one selected event into the context.
pub trait Update: Context {
    fn update(&self, context: &mut Self::Context, event: &EventMasked) -> Result<(), Error>;
}

/// Decides, given the context that the selected events built.
pub trait Execute: Context where Self::Err: From<Error> {
    type Err;

    type Ok;

    fn execute(&mut self, context: &mut Self::Context) -> Result<Self::Ok, Self::Err>;
}

/// A decision: a context, a selection, an update and an execution.
pub trait Decision: Execute + Context + Select + Update where Self::Err: From<Error> {
}

/// The events that a decision appends, in the order of appending.
#[derive(Debug)]
pub struct Events {
    events: Vec<CandidateEvent>,
}

impl View for Events {
    type V = Seq<CandidateEvent>;

    closed spec fn view(&self) -> Seq<CandidateEvent> {
        self.events@
    }
}

impl Events {
    pub fn new() -> (r: Events)
        ensures
            r@ == Seq::<CandidateEvent>::empty(),
    {
        Events { events: Vec::new() }
    }

    /// Appends the outcome of encoding an event: the event itself, or nothing
    /// and the error.
    pub fn push_encoded(&mut self, encoded: Result<CandidateEvent, Error>) -> (r: Result<(), Error>)
        ensures
            match encoded {
                Ok(c) => r is Ok && final(self)@ == old(self)@.push(c),
                Err(e) => r == Err::<(), Error>(e) && final(self)@ == old(self)@,
            },
    {
        match encoded {
            Ok(candidate) => {
                self.events.push(candidate);
                Ok(())
            },
            Err(e) => Err(e),
        }
    }

    /// Appends `event`, whose body was serialized into `data`.
    pub fn append<E: Event>(&mut self, event: &E, data: Result<Data, Error>) -> (r: Result<(), Error>)
        ensures
            data is Err ==> r is Err && r->Err_0 == data->Err_0 && final(self)@ == old(self)@,
            data is Ok ==> exists|id: Result<Identifier, Error>, ts: Result<Vec<Tag>, Error>|
                #![trigger spec_encode(data, id, ts)]
                {
                    &&& call_ensures(E::identifier, (), id)
                    &&& id is Ok ==> call_ensures(E::tags, (event,), ts)
                    &&& match spec_encode(data, id, ts) {
                        Ok(c) => r is Ok && final(self)@ == old(self)@.push(c),
                        Err(e) => r == Err::<(), Error>(e) && final(self)@ == old(self)@,
                    }
                },
    {
        let encoded = encode(event, data);
        let ghost witness: (Result<Identifier, Error>, Result<Vec<Tag>, Error>) = if data is Ok {
            choose|id: Result<Identifier, Error>, ts: Result<Vec<Tag>, Error>|
                call_ensures(E::identifier, (), id) && (id is Ok ==> call_ensures(E::tags, (event,), ts))
                    && encoded == spec_encode(data, id, ts)
        } else {
            arbitrary()
        };
        let r = self.push_encoded(encoded);
        assert(data is Ok ==> call_ensures(E::identifier, (), witness.0) && (witness.0 is Ok
            ==> call_ensures(E::tags, (event,), witness.1)) && match spec_encode(data, witness.0, witness.1) {
            Ok(c) => r is Ok && self@ == old(self)@.push(c),
            Err(e) => r == Err::<(), Error>(e) && self@ == old(self)@,
        });
        r
    }

    pub fn len(&self) -> (r: usize)
        ensures
            r == self@.len(),
    {
        self.events.len()
    }

    pub fn is_empty(&self) -> (r: bool)
        ensures
            r == (self@.len() == 0),
    {
        self.events.len() == 0
    }

    /// Hands out every appended event, in the order of appending.
    pub fn take(self) -> (r: Vec<CandidateEvent>)
        ensures
            r@ == self@,
    {
        self.events
    }
}

/// The events in `events` after each of `appended` was pushed in turn.
pub open spec fn pushed_all(events: Seq<CandidateEvent>, appended: Seq<CandidateEvent>) -> Seq<CandidateEvent>
    decreases appended.len(),
{
    if appended.len() == 0 {
        events
    } else {
        pushed_all(events, appended.drop_last()).push(appended.last())
    }
}

/// Events that start empty and take each of a sequence of appended events in
/// turn hand back, on `take`, exactly that sequence, in the order of appending
/// (`new` starts from the empty sequence, each successful append pushes its
/// event, and `take` returns the sequence).
pub proof fn law_take_returns_appended(appended: Seq<CandidateEvent>)
    ensures
        pushed_all(Seq::empty(), appended) == appended,
    decreases appended.len(),
{
    if appended.len() > 0 {
        law_take_returns_appended(appended.drop_last());
        assert(appended.drop_last().push(appended.last()) =~= appended);
    }
}

} // verus!
