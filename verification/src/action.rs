//! Actions: like decisions, but acting through `Act`, which is what the
//! enactor drives against a stream.

use vstd::prelude::*;

use crate::decision::{
    Context,
    Select,
    Update,
};
use crate::store::Error;

verus! {

/// Acts, given the context that the selected events built.
pub trait Act: Context where Self::Err: From<Error> {
    type Err;

    type Ok;

    fn action(&mut self, context: &mut Self::Context) -> Result<Self::Ok, Self::Err>;
}

/// An action: a context, a selection, an update and an act.
pub trait Action: Act + Context + Select + Update where Self::Err: From<Error> {
}

} // verus!
