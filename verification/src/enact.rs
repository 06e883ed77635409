//! Enacting an action against a stream. The stream is read and written by the
//! caller; the library keeps the state in between: the action, its context and
//! the position of the last event read, which conditions the append.

use vstd::prelude::*;

use crate::action::Action;
use crate::decision::{
    Context,
    Events,
};
use crate::store::{
    CandidateEvent,
    Error,
    EventMasked,
    Position,
    Selections,
};

verus! {

/// Something that can enact an action: read what it selects, let it act, and
/// append what it produced.
pub trait Enactor {
    fn enact<A>(&mut self, action: A) -> Result<A::Ok, A::Err> where A: Action, A::Err: From<Error>;
}

/// The position of the last of `positions`, if there is one.
pub open spec fn last_position(positions: Seq<Position>) -> Option<Position> {
    if positions.len() == 0 {
        None
    } else {
        Some(positions.last())
    }
}

/// The events to append and the position after which nothing may have been
/// appended meanwhile (none: the stream must still hold nothing selected).
#[derive(Debug)]
pub struct Append {
    pub events: Vec<CandidateEvent>,
    pub after: Option<Position>,
}

/// What an action concluded: its result, and what is to be appended.
pub struct Conclusion<O> {
    pub ok: O,
    pub append: Option<Append>,
}

/// What is appended of `events`, given the position of the last event read:
/// nothing when the action produced no event.
pub fn plan_append(events: Vec<CandidateEvent>, after: Option<Position>) -> (r: Option<Append>)
    ensures
        events@.len() == 0 ==> r is None,
        events@.len() > 0 ==> r == Some(Append { events, after }),
{
    if events.len() == 0 {
        None
    } else {
        Some(Append { events, after })
    }
}

/// The positions of the events read so far, and the last of them.
pub struct ReadPositions {
    after: Option<Position>,
    observed: Ghost<Seq<Position>>,
}

impl ReadPositions {
    #[verifier::type_invariant]
    spec fn after_is_last(&self) -> bool {
        self.after == last_position(self.observed@)
    }

    /// The positions read, in order.
    pub closed spec fn observed(&self) -> Seq<Position> {
        self.observed@
    }

    pub fn new() -> (r: ReadPositions)
        ensures
            r.observed() == Seq::<Position>::empty(),
    {
        ReadPositions { after: None, observed: Ghost(Seq::empty()) }
    }

    pub fn record(&mut self, position: Position)
        ensures
            final(self).observed() == old(self).observed().push(position),
    {
        let observed = Ghost(self.observed@.push(position));
        *self = ReadPositions { after: Some(position), observed };
    }

    /// The position of the last event read.
    pub fn last(&self) -> (r: Option<Position>)
        ensures
            r == last_position(self.observed()),
    {
        proof {
            use_type_invariant(self);
        }
        self.after
    }
}

/// An action being enacted.
pub struct Enactment<A> where A: Action, A::Err: From<Error> {
    action: A,
    context: A::Context,
    read: ReadPositions,
    failure: Option<Error>,
}

impl<A> Enactment<A> where A: Action, A::Err: From<Error> {
    /// The positions of the events read so far, in order.
    pub closed spec fn observed(&self) -> Seq<Position> {
        self.read.observed()
    }

    /// The action being enacted.
    pub closed spec fn action(&self) -> A {
        self.action
    }

    /// The action's context.
    pub closed spec fn context(&self) -> A::Context {
        self.context
    }

    /// The failure that ended the reading, if one did: after it nothing more
    /// is read, and the action does not act.
    pub closed spec fn failure(&self) -> Option<Error> {
        self.failure
    }

    /// Starts enacting `action` with its `context`, given what the action
    /// selected: the enactment, nothing read yet, and the selections; or the
    /// failure to select, with nothing to enact.
    pub fn start(action: A, context: A::Context, selected: Result<Selections, Error>) -> (r: Result<(Enactment<A>, Selections), Error>)
        ensures
            match selected {
                Ok(s) => r matches Ok((e, t)) && t == s && e.observed() == Seq::<Position>::empty()
                    && e.action() == action && e.context() == context && e.failure() is None,
                Err(err) => r == Err::<(Enactment<A>, Selections), Error>(err),
            },
    {
        match selected {
            Ok(selections) => {
                let e = Enactment { action, context, read: ReadPositions::new(), failure: None };
                Ok((e, selections))
            },
            Err(e) => Err(e),
        }
    }

    /// Builds the action's context and asks what it selects, with that
    /// context; when that fails there is nothing to enact.
    pub fn begin(action: A) -> (r: Result<(Enactment<A>, Selections), Error>)
        ensures
            match r {
                Ok((e, s)) => {
                    &&& call_ensures(A::context, (&action,), e.context())
                    &&& call_ensures(A::select, (&action, &e.context()), Ok::<Selections, Error>(s))
                    &&& e.observed() == Seq::<Position>::empty()
                    &&& e.action() == action
                    &&& e.failure() is None
                },
                Err(err) => exists|ctx: A::Context|
                    #![trigger call_ensures(A::context, (&action,), ctx)]
                    call_ensures(A::context, (&action,), ctx) && call_ensures(
                        A::select,
                        (&action, &ctx),
                        Err::<Selections, Error>(err),
                    ),
            },
    {
        let context = action.context();
        let selected = action.select(&context);
        proof {
            assert(call_ensures(A::context, (&action,), context));
            assert(call_ensures(A::select, (&action, &context), selected));
        }
        Self::start(action, context, selected)
    }

    /// The position after which the append will be conditioned: that of the
    /// last event read.
    pub fn after(&self) -> (r: Option<Position>)
        ensures
            r == last_position(self.observed()),
    {
        self.read.last()
    }

    /// Reads one selected event: records its position, then lets the action
    /// fold it into its context, and returns what that returned; a failure to
    /// fold it ends the reading. Once
    /// the reading has ended, nothing more is recorded or folded and the
    /// failure that ended it is reported again.
    pub fn observe(&mut self, event: &EventMasked) -> (r: Result<(), Error>)
        ensures
            final(self).action() == old(self).action(),
            old(self).failure() matches Some(f) ==> {
                &&& r == Err::<(), Error>(f)
                &&& final(self).observed() == old(self).observed()
                &&& final(self).context() == old(self).context()
                &&& final(self).failure() == old(self).failure()
            },
            old(self).failure() is None ==> {
                &&& final(self).observed() == old(self).observed().push(event.event.position)
                &&& r matches Err(e) ==> final(self).failure() == Some(e)
                &&& r is Ok ==> final(self).failure() is None
                &&& exists|m: &mut A::Context|
                    #![trigger call_ensures(A::update, (&old(self).action(), m, event), r)]
                    mut_ref_current(m) == old(self).context() && mut_ref_future(m) == final(self).context()
                        && call_ensures(A::update, (&old(self).action(), m, event), r)
            },
    {
        if let Some(f) = &self.failure {
            return Err(f.duplicate());
        }
        self.read.record(event.event.position());
        let ghost before = self.context;
        let updated = self.action.update(&mut self.context, event);
        let ghost after_update = self.context;
        let ghost m = choose|m: &mut A::Context|
            mut_ref_current(m) == before && mut_ref_future(m) == after_update && call_ensures(
                A::update,
                (&self.action, m, event),
                updated,
            );
        let r = match updated {
            Ok(()) => Ok(()),
            Err(e) => {
                self.failure = Some(e.duplicate());
                Err(e)
            },
        };
        assert(r == updated) by {
            match updated {
                Ok(u) => assert(u == ()),
                Err(_) => {},
            }
        }
        assert(mut_ref_current(m) == old(self).context() && mut_ref_future(m) == self.context()
            && call_ensures(A::update, (&old(self).action(), m, event), r));
        r
    }

    /// Takes what the stream gave for the next selected event: a failure to
    /// read ends the reading with that failure, nothing recorded or folded; an
    /// event is observed.
    pub fn read(&mut self, read: Result<EventMasked, Error>) -> (r: Result<(), Error>)
        ensures
            final(self).action() == old(self).action(),
            old(self).failure() matches Some(f) ==> {
                &&& r == Err::<(), Error>(f)
                &&& final(self).observed() == old(self).observed()
                &&& final(self).context() == old(self).context()
                &&& final(self).failure() == old(self).failure()
            },
            old(self).failure() is None ==> match read {
                Err(e) => {
                    &&& r == Err::<(), Error>(e)
                    &&& final(self).observed() == old(self).observed()
                    &&& final(self).context() == old(self).context()
                    &&& final(self).failure() == Some(e)
                },
                Ok(event) => {
                    &&& final(self).observed() == old(self).observed().push(event.event.position)
                    &&& r matches Err(e) ==> final(self).failure() == Some(e)
                    &&& r is Ok ==> final(self).failure() is None
                    &&& exists|m: &mut A::Context|
                        #![trigger call_ensures(A::update, (&old(self).action(), m, &event), r)]
                        mut_ref_current(m) == old(self).context()
                            && mut_ref_future(m) == final(self).context()
                            && call_ensures(A::update, (&old(self).action(), m, &event), r)
                },
            },
    {
        if let Some(f) = &self.failure {
            return Err(f.duplicate());
        }
        match read {
            Ok(event) => self.observe(&event),
            Err(e) => {
                self.failure = Some(e.duplicate());
                Err(e)
            },
        }
    }

    /// Lets the action act, unless the reading ended with a failure: then the
    /// action does not act and that failure, converted, is the result.
    /// Otherwise what the action appended to its context is to be appended to
    /// the stream after the last event read, unless it appended nothing.
    pub fn conclude(self) -> (r: Result<Conclusion<A::Ok>, A::Err>)
        ensures
            self.failure() matches Some(f) ==> r is Err && call_ensures(
                <A::Err as From<Error>>::from,
                (f,),
                r->Err_0,
            ),
            self.failure() is None ==> (r matches Ok(c) ==> (c.append matches Some(a) ==> a.events@.len()
                > 0 && a.after == last_position(self.observed()))),
            self.failure() is None ==> exists|
                m: &mut A,
                c: &mut A::Context,
                acted: Result<A::Ok, A::Err>,
                evs: Events,
            |
                #![trigger call_ensures(A::action, (m, c), acted), concluded(acted, evs@, last_position(self.observed()), r)]
                {
                    &&& mut_ref_current(m) == self.action()
                    &&& mut_ref_current(c) == self.context()
                    &&& call_ensures(A::action, (m, c), acted)
                    &&& acted is Ok ==> call_ensures(A::into_events, (mut_ref_future(c),), evs)
                    &&& concluded(acted, evs@, last_position(self.observed()), r)
                    &&& acted matches Ok(ok) ==> (r matches Ok(cn) && cn.ok == ok && (cn.append is None
                        <==> evs@.len() == 0) && (cn.append matches Some(a) ==> a.events@ == evs@
                        && a.after == last_position(self.observed())))
                    &&& acted matches Err(e) ==> r == Err::<Conclusion<A::Ok>, A::Err>(e)
                },
    {
        let after = self.read.last();
        let ghost observed = self.observed();
        let Enactment { mut action, mut context, read, failure } = self;
        if let Some(f) = failure {
            return Err(<A::Err as From<Error>>::from(f));
        }
        let ghost action_before = action;
        let ghost context_before = context;
        let acted = action.action(&mut context);
        let ghost context_after = context;
        let ghost action_after = action;
        let ghost m = choose|m: &mut A| mut_ref_current(m) == action_before && exists|c: &mut A::Context|
            mut_ref_current(c) == context_before && mut_ref_future(c) == context_after && call_ensures(A::action, (m, c), acted);
        let ghost c = choose|c: &mut A::Context|
            mut_ref_current(c) == context_before && mut_ref_future(c) == context_after && call_ensures(A::action, (m, c), acted);
        let ghost mut evs: Events = arbitrary();
        let events = match &acted {
            Ok(_) => {
                let collected = A::into_events(context);
                proof {
                    evs = collected;
                }
                collected.take()
            },
            Err(_) => Vec::new(),
        };
        let r = conclusion_of(acted, events, after);
        assert(concluded(acted, evs@, last_position(observed), r));
        r
    }
}

/// What an action concludes appends every event its context collected, in
/// order, after the last event read, and nothing when it collected none; its
/// result is what acting returned.
pub proof fn law_concluded_appends_all_collected<O, E>(
    acted: Result<O, E>,
    events: Seq<CandidateEvent>,
    after: Option<Position>,
    r: Result<Conclusion<O>, E>,
)
    requires
        concluded(acted, events, after, r),
    ensures
        acted matches Ok(ok) ==> (r matches Ok(c) && c.ok == ok && (c.append is None <==> events.len()
            == 0) && (c.append matches Some(a) ==> a.events@ == events && a.after == after)),
        acted matches Err(e) ==> r == Err::<Conclusion<O>, E>(e),
{
}

/// Whether `r` is what an action concludes when acting returned `acted`, its
/// context then collected `events`, and the last event read was at `after`.
pub open spec fn concluded<O, E>(
    acted: Result<O, E>,
    events: Seq<CandidateEvent>,
    after: Option<Position>,
    r: Result<Conclusion<O>, E>,
) -> bool {
    match acted {
        Ok(ok) => r matches Ok(c) && c.ok == ok && (events.len() == 0 ==> c.append is None) && (
        events.len() > 0 ==> (c.append matches Some(a) && a.events@ == events && a.after == after)),
        Err(e) => r == Err::<Conclusion<O>, E>(e),
    }
}

/// What an action concludes, given what acting returned and the events its
/// context collected: the failure to act; or its result, with the events to
/// append after `after`, nothing when it collected none.
pub fn conclusion_of<O, E>(acted: Result<O, E>, events: Vec<CandidateEvent>, after: Option<Position>) -> (r: Result<Conclusion<O>, E>)
    ensures
        match acted {
            Ok(ok) => r matches Ok(c) && c.ok == ok && (events@.len() == 0 ==> c.append is None) && (
            events@.len() > 0 ==> c.append == Some(Append { events, after })),
            Err(e) => r == Err::<Conclusion<O>, E>(e),
        },
{
    match acted {
        Ok(ok) => Ok(Conclusion { ok, append: plan_append(events, after) }),
        Err(e) => Err(e),
    }
}

} // verus!
