//! The `Projection` derive's input: a type and the selectors of its query.

use vstd::prelude::*;

use crate::derive::query::{
    distinct_events,
    holds_path,
    selected,
    EventPath,
    Selector,
};
use crate::derive::suffixed;

verus! {

/// A projection type and its `select(...)` attributes.
#[derive(Debug)]
pub struct Projection {
    pub ident: String,
    pub select: Vec<Selector>,
}

impl Projection {
    /// The event types that the projection selects, each once: those it
    /// updates on, dispatches and recognises.
    pub fn events(&self) -> (r: Vec<EventPath>)
        ensures
            forall|i: int, j: int| 0 <= i < j < r@.len() ==> r@[i]@ != r@[j]@,
            forall|k: int| 0 <= k < r@.len() ==> selected(self.select@, #[trigger] r@[k]@),
            forall|s: int, e: int|
                0 <= s < self.select@.len() && 0 <= e < self.select@[s].events@.len() ==> holds_path(
                    r@,
                    #[trigger] self.select@[s].events@[e]@,
                ),
    {
        distinct_events(&self.select)
    }

    pub fn selectors(&self) -> (r: &Vec<Selector>)
        ensures
            r@ == self.select@,
    {
        &self.select
    }
}

/// The trait that bounds a projection by an update for each of its event types.
pub fn update_trait_name(ident: &String) -> (r: String)
    ensures
        r@ == ident@ + "Update"@,
{
    suffixed(ident, "Update")
}

/// The trait that bounds a projection by the updates it dispatches to.
pub fn dispatch_trait_name(ident: &String) -> (r: String)
    ensures
        r@ == ident@ + "Dispatch"@,
{
    suffixed(ident, "Dispatch")
}

} // verus!
