//! What the derive macros read from their attributes and decide before they
//! write code: the tags, the identifier, the selectors of a query, the event
//! types of a projection, the projections of a decision, and the names of the
//! items they generate.

use vstd::prelude::*;

pub mod identifier;
pub mod projection;
pub mod projections;
pub mod query;
pub mod tag;

verus! {

/// `ident` followed by `suffix`.
pub fn suffixed(ident: &String, suffix: &str) -> (r: String)
    ensures
        r@ == ident@ + suffix@,
{
    let mut r = ident.clone();
    r.append(suffix);
    r
}

} // verus!
