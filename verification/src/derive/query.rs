//! The selectors of a projection's or a query's attribute: the event types
//! they select and the tags they filter on.

use vstd::prelude::*;

use crate::derive::tag::{
    fold,
    fold_groups,
    TagInitialize,
    TagMap,
};

verus! {

/// One segment of a path: its identifier and the source of its generic
/// arguments (empty when it has none).
#[derive(Debug)]
pub struct PathSegment {
    pub ident: String,
    pub arguments: String,
}

/// The path of a type, such as the type of an event.
#[derive(Debug)]
pub struct EventPath {
    pub leading_colon: bool,
    pub segments: Vec<PathSegment>,
}

pub open spec fn segment_view(s: PathSegment) -> (Seq<char>, Seq<char>) {
    (s.ident@, s.arguments@)
}

impl View for EventPath {
    type V = (bool, Seq<(Seq<char>, Seq<char>)>);

    open spec fn view(&self) -> (bool, Seq<(Seq<char>, Seq<char>)>) {
        (self.leading_colon, self.segments@.map_values(|s: PathSegment| segment_view(s)))
    }
}

impl PathSegment {
    pub fn duplicate(&self) -> (r: PathSegment)
        ensures
            r == *self,
    {
        PathSegment { ident: self.ident.clone(), arguments: self.arguments.clone() }
    }
}

impl EventPath {
    /// Whether two paths are written alike.
    pub fn same(&self, other: &EventPath) -> (r: bool)
        ensures
            r == (self@ == other@),
    {
        if self.leading_colon != other.leading_colon {
            return false;
        }
        if self.segments.len() != other.segments.len() {
            assert(self@.1.len() != other@.1.len());
            return false;
        }
        let mut i: usize = 0;
        while i < self.segments.len()
            invariant
                i <= self.segments@.len(),
                self.segments@.len() == other.segments@.len(),
                forall|j: int|
                    0 <= j < i ==> segment_view(#[trigger] self.segments@[j]) == segment_view(
                        other.segments@[j],
                    ),
            decreases self.segments@.len() - i,
        {
            let a = &self.segments[i];
            let b = &other.segments[i];
            if a.ident != b.ident || a.arguments != b.arguments {
                assert(self@.1[i as int] != other@.1[i as int]);
                return false;
            }
            i = i + 1;
        }
        assert(self@.1 =~= other@.1);
        true
    }

    pub fn duplicate(&self) -> (r: EventPath)
        ensures
            r@ == self@,
            r.segments@.len() == self.segments@.len(),
            forall|j: int| 0 <= j < r.segments@.len() ==> r.segments@[j] == self.segments@[j],
    {
        let mut segments: Vec<PathSegment> = Vec::new();
        let mut i: usize = 0;
        while i < self.segments.len()
            invariant
                i <= self.segments@.len(),
                segments@.len() == i,
                forall|j: int| 0 <= j < i ==> segments@[j] == self.segments@[j],
            decreases self.segments@.len() - i,
        {
            segments.push(self.segments[i].duplicate());
            i = i + 1;
        }
        let r = EventPath { leading_colon: self.leading_colon, segments };
        assert(r@.1 =~= self@.1);
        r
    }
}

/// Whether some path of `paths` is written as `p`.
pub open spec fn holds_path(paths: Seq<EventPath>, p: (bool, Seq<(Seq<char>, Seq<char>)>)) -> bool {
    exists|k: int| 0 <= k < paths.len() && #[trigger] paths[k]@ == p
}

pub fn contains_path(paths: &Vec<EventPath>, p: &EventPath) -> (r: bool)
    ensures
        r == holds_path(paths@, p@),
{
    let mut k: usize = 0;
    while k < paths.len()
        invariant
            k <= paths@.len(),
            forall|j: int| 0 <= j < k ==> paths@[j]@ != p@,
        decreases paths@.len() - k,
    {
        if paths[k].same(p) {
            return true;
        }
        k = k + 1;
    }
    false
}

/// One `select(events(...), filter(...))` of an attribute.
#[derive(Debug)]
pub struct Selector {
    pub events: Vec<EventPath>,
    pub filter: Option<TagMap>,
}

/// The form of the selector that is built: by event types alone when the
/// filter builds no tag, else by event types and tags.
#[derive(Debug)]
pub enum SelectorForm {
    Specifiers,
    SpecifiersAndTags(Vec<TagInitialize>),
}

/// The tags that a selector's filter builds for the type `ident`.
pub open spec fn filter_tags(ident: String, selector: Selector) -> Seq<TagInitialize> {
    match selector.filter {
        None => Seq::empty(),
        Some(m) => fold_groups(ident, m.groups()),
    }
}

/// The tags of a selector are those its filter builds, whatever event types
/// it lists: none without a filter, else the filter's tags.
pub proof fn law_filter_tags_are_the_filters(ident: String, selector: Selector)
    ensures
        selector.filter is None ==> filter_tags(ident, selector) == Seq::<TagInitialize>::empty(),
        selector.filter matches Some(m) ==> filter_tags(ident, selector) == fold_groups(ident, m.groups()),
        forall|events: Vec<EventPath>|
            #[trigger] filter_tags(ident, Selector { events, filter: selector.filter })
                == filter_tags(ident, selector),
{
}

pub fn selector_form(ident: &String, selector: &Selector) -> (r: SelectorForm)
    ensures
        filter_tags(*ident, *selector).len() == 0 ==> r is Specifiers,
        filter_tags(*ident, *selector).len() > 0 ==> (r matches SelectorForm::SpecifiersAndTags(t)
            && t@ == filter_tags(*ident, *selector)),
        selector.filter is None ==> r is Specifiers,
        selector.filter matches Some(m) ==> {
            &&& fold_groups(*ident, m.groups()).len() == 0 ==> r is Specifiers
            &&& fold_groups(*ident, m.groups()).len() > 0 ==> (r matches SelectorForm::SpecifiersAndTags(t)
                && t@ == fold_groups(*ident, m.groups()))
        },
{
    let tags = match &selector.filter {
        None => fold(ident, None),
        Some(m) => fold(ident, Some(m)),
    };
    if tags.len() == 0 {
        SelectorForm::Specifiers
    } else {
        SelectorForm::SpecifiersAndTags(tags)
    }
}

/// Whether `p` is one of the event types that `selectors` select.
pub open spec fn selected(selectors: Seq<Selector>, p: (bool, Seq<(Seq<char>, Seq<char>)>)) -> bool {
    exists|s: int| 0 <= s < selectors.len() && holds_path(#[trigger] selectors[s].events@, p)
}

/// The event types that `selectors` select, each once.
pub fn distinct_events(selectors: &Vec<Selector>) -> (r: Vec<EventPath>)
    ensures
        forall|i: int, j: int| 0 <= i < j < r@.len() ==> r@[i]@ != r@[j]@,
        forall|k: int| 0 <= k < r@.len() ==> selected(selectors@, #[trigger] r@[k]@),
        forall|s: int, e: int|
            0 <= s < selectors@.len() && 0 <= e < selectors@[s].events@.len() ==> holds_path(
                r@,
                #[trigger] selectors@[s].events@[e]@,
            ),
{
    let mut r: Vec<EventPath> = Vec::new();
    let mut s: usize = 0;
    while s < selectors.len()
        invariant
            s <= selectors@.len(),
            forall|i: int, j: int| 0 <= i < j < r@.len() ==> r@[i]@ != r@[j]@,
            forall|k: int| 0 <= k < r@.len() ==> selected(selectors@, #[trigger] r@[k]@),
            forall|t: int, e: int|
                0 <= t < s && 0 <= e < selectors@[t].events@.len() ==> holds_path(
                    r@,
                    #[trigger] selectors@[t].events@[e]@,
                ),
        decreases selectors@.len() - s,
    {
        let events = &selectors[s].events;
        let mut e: usize = 0;
        while e < events.len()
            invariant
                s < selectors@.len(),
                events@ == selectors@[s as int].events@,
                e <= events@.len(),
                forall|i: int, j: int| 0 <= i < j < r@.len() ==> r@[i]@ != r@[j]@,
                forall|k: int| 0 <= k < r@.len() ==> selected(selectors@, #[trigger] r@[k]@),
                forall|t: int, f: int|
                    0 <= t < s && 0 <= f < selectors@[t].events@.len() ==> holds_path(
                        r@,
                        #[trigger] selectors@[t].events@[f]@,
                    ),
                forall|f: int| 0 <= f < e ==> holds_path(r@, #[trigger] events@[f]@),
            decreases events@.len() - e,
        {
            let ghost before = r@;
            if !contains_path(&r, &events[e]) {
                let p = events[e].duplicate();
                r.push(p);
                assert(r@[r@.len() - 1]@ == events@[e as int]@);
                assert(holds_path(selectors@[s as int].events@, events@[e as int]@));
                assert forall|k: int| 0 <= k < r@.len() implies selected(selectors@, #[trigger] r@[k]@) by {
                    if k < before.len() {
                        assert(r@[k] == before[k]);
                    }
                }
                assert forall|t: int, f: int|
                    0 <= t < s && 0 <= f < selectors@[t].events@.len() implies holds_path(
                        r@,
                        #[trigger] selectors@[t].events@[f]@,
                    ) by {
                    let w = choose|w: int| 0 <= w < before.len() && #[trigger] before[w]@ == selectors@[t].events@[f]@;
                    assert(r@[w] == before[w]);
                }
                assert forall|g: int| 0 <= g <= e implies holds_path(r@, #[trigger] events@[g]@) by {
                    if g < e {
                        let w = choose|w: int| 0 <= w < before.len() && #[trigger] before[w]@ == events@[g]@;
                        assert(r@[w] == before[w]);
                    } else {
                        assert(r@[r@.len() - 1]@ == events@[g]@);
                    }
                }
            }
            e = e + 1;
        }
        s = s + 1;
    }
    r
}

/// A `query(select(...), ...)` attribute.
#[derive(Debug)]
pub struct Query {
    pub select: Vec<Selector>,
}

impl Query {
    /// The event types that the query selects, each once.
    pub fn events(&self) -> (r: Vec<EventPath>)
        ensures
            forall|i: int, j: int| 0 <= i < j < r@.len() ==> r@[i]@ != r@[j]@,
            forall|k: int| 0 <= k < r@.len() ==> selected(self.select@, #[trigger] r@[k]@),
            forall|s: int, e: int|
                0 <= s < self.select@.len() && 0 <= e < self.select@[s].events@.len() ==> holds_path(
                    r@,
                    #[trigger] self.select@[s].events@[e]@,
                ),
    {
        distinct_events(&self.select)
    }
}

} // verus!
