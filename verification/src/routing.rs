//! How the update of a decision hands one stored event to its projections, in
//! the order in which the decision declares them: each projection is asked to
//! recognise the event until one does; from that one on, every projection is
//! offered the recognised event (each takes only the types it updates on).

use vstd::prelude::*;

use crate::store::Error;

verus! {

/// Whether the projection at `j` was asked and did not recognise the event.
pub open spec fn declined(outcomes: Seq<Result<bool, Error>>, j: int) -> bool {
    outcomes[j] == Ok::<bool, Error>(false)
}

/// The projection that recognises the event, given what each projection
/// answered when asked in order: the first that recognised it; a failure to
/// recognise ends the update with that failure; none, when all declined.
pub fn recognizer(outcomes: &Vec<Result<bool, Error>>) -> (r: Result<Option<usize>, Error>)
    ensures
        match r {
            Ok(Some(k)) => k < outcomes@.len() && outcomes@[k as int] == Ok::<bool, Error>(true)
                && forall|j: int| 0 <= j < k ==> declined(outcomes@, j),
            Ok(None) => forall|j: int| 0 <= j < outcomes@.len() ==> declined(outcomes@, j),
            Err(e) => exists|k: int|
                0 <= k < outcomes@.len() && outcomes@[k] == Err::<bool, Error>(e) && forall|j: int|
                    0 <= j < k ==> declined(outcomes@, j),
        },
{
    let mut i: usize = 0;
    while i < outcomes.len()
        invariant
            i <= outcomes@.len(),
            forall|j: int| 0 <= j < i ==> declined(outcomes@, j),
        decreases outcomes@.len() - i,
    {
        match &outcomes[i] {
            Ok(true) => {
                return Ok(Some(i));
            },
            Ok(false) => {},
            Err(e) => {
                let e = e.duplicate();
                assert(outcomes@[i as int] == Err::<bool, Error>(e));
                return Err(e);
            },
        }
        i = i + 1;
    }
    Ok(None)
}

/// Whether the projection at `i` is asked to recognise the event, when the
/// projection at `recognizer` (if any) recognised it.
pub open spec fn asked(recognizer: Option<usize>, i: int) -> bool {
    match recognizer {
        Some(k) => 0 <= i <= k,
        None => 0 <= i,
    }
}

/// Whether the projection at `i` is offered the recognised event.
pub open spec fn offered(recognizer: Option<usize>, i: int) -> bool {
    match recognizer {
        Some(k) => k <= i,
        None => false,
    }
}

/// The projections, out of `count`, that are offered the event, in order.
pub fn offered_to(recognizer: Option<usize>, count: usize) -> (r: Vec<usize>)
    requires
        recognizer matches Some(k) ==> k < count,
    ensures
        forall|i: int| 0 <= i < r@.len() ==> r@[i] < count && offered(recognizer, r@[i] as int),
        forall|i: int| 0 <= i < count && offered(recognizer, i) ==> r@.contains(i as usize),
        forall|i: int, j: int| 0 <= i < j < r@.len() ==> r@[i] < r@[j],
        recognizer is None ==> r@.len() == 0,
        recognizer matches Some(k) ==> r@.len() == count - k && forall|j: int| 0 <= j < r@.len() ==> r@[j] == k + j,
{
    let mut r: Vec<usize> = Vec::new();
    match recognizer {
        None => r,
        Some(k) => {
            let mut i: usize = k;
            while i < count
                invariant
                    k <= i <= count,
                    r@.len() == i - k,
                    forall|m: int| 0 <= m < r@.len() ==> r@[m] == k + m,
                decreases count - i,
            {
                r.push(i);
                i = i + 1;
            }
            assert forall|m: int| 0 <= m < count && offered(recognizer, m) implies r@.contains(m as usize) by {
                assert(r@[m - k] == m);
            }
            r
        },
    }
}

/// The update's progress through the projections, one step per projection:
/// whether the one at `position` is to be asked to recognise the event, and
/// whether it is to be offered the recognised event.
pub struct Routing {
    position: usize,
    found: Option<usize>,
}

impl Routing {
    #[verifier::type_invariant]
    spec fn found_so_far(&self) -> bool {
        self.found matches Some(k) ==> k <= self.position
    }

    /// The projection the update has reached.
    pub closed spec fn position(&self) -> usize {
        self.position
    }

    /// The projection that recognised the event, if one has.
    pub closed spec fn found(&self) -> Option<usize> {
        self.found
    }

    /// Before the first projection, nothing recognised.
    pub fn new() -> (r: Routing)
        ensures
            r.position() == 0,
            r.found() is None,
    {
        Routing { position: 0, found: None }
    }

    /// The projection reached is asked while no projection recognised the
    /// event.
    pub fn should_recognize(&self) -> (r: bool)
        ensures
            r == (self.found() is None),
    {
        self.found.is_none()
    }

    /// Records what the projection reached answered when asked.
    pub fn recognized(&mut self, outcome: bool)
        requires
            old(self).found() is None,
        ensures
            final(self).position() == old(self).position(),
            final(self).found() == (if outcome {
                Some(old(self).position())
            } else {
                None
            }),
    {
        if outcome {
            let position = self.position;
            *self = Routing { position, found: Some(position) };
        }
    }

    /// The projection reached is offered the recognised event: it is the
    /// recognizer or comes after it.
    pub fn should_offer(&self) -> (r: bool)
        ensures
            r == offered(self.found(), self.position() as int),
            r == (self.found() is Some),
            self.found() matches Some(k) ==> k <= self.position(),
    {
        proof {
            use_type_invariant(self);
        }
        self.found.is_some()
    }

    /// Moves on to the next projection.
    pub fn next(&mut self)
        requires
            old(self).position() < usize::MAX,
        ensures
            final(self).position() == old(self).position() + 1,
            final(self).found() == old(self).found(),
    {
        proof {
            use_type_invariant(&*self);
        }
        let position = self.position + 1;
        let found = self.found;
        *self = Routing { position, found };
    }
}

/// Every projection from the recognizer on is offered the event, and none
/// before it; with no recognizer none is.
pub proof fn law_offered_from_recognizer_on(recognizer: Option<usize>, i: int)
    ensures
        recognizer matches Some(k) ==> (offered(recognizer, i) <==> k <= i),
        recognizer is None ==> !offered(recognizer, i),
{
}

/// An event is offered to at most the projections from the recognizer on, and
/// none of the projections asked before the recognizer is offered it: the only
/// projection both asked and offered the event is the one that recognised it.
pub proof fn law_asked_and_offered_meet_at_recognizer(recognizer: Option<usize>, i: int)
    ensures
        asked(recognizer, i) && offered(recognizer, i) <==> (recognizer matches Some(k) && k == i),
{
}

} // verus!
