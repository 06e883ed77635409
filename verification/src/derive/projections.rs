//! The projections that a decision declares in its attribute, each as
//! `Type: initializer` or `Type @ name: initializer`.

use vstd::prelude::*;

use crate::derive::query::EventPath;
use crate::derive::suffixed;
use crate::derive::tag::Closure;

verus! {

/// The snake-case form of an identifier, as the `heck` crate writes it.
pub uninterp spec fn snake_case(s: Seq<char>) -> Seq<char>;

/// Calls `heck::AsSnakeCase` and writes the result out; the contract claims
/// only that the result is the snake-case form of the argument, which it names.
#[verifier::external_body]
fn to_snake_case(ident: &String) -> (r: String)
    ensures
        r@ == snake_case(ident@),
{
    heck::AsSnakeCase(ident.as_str()).to_string()
}

/// How a projection is initialised from the decision: a closure, or an
/// expression over `this`.
#[derive(Debug)]
pub enum Initializer {
    Closure(Closure),
    Expr(String),
}

/// A projection field of a decision.
#[derive(Debug)]
pub struct Projection {
    pub field_name: String,
    pub field_type: EventPath,
    pub initializer: Closure,
}

impl Projection {
    /// The projection declared with type `field_type`, the name given after `@`
    /// (if any), and `initializer`: unnamed, the field is named by the snake case
    /// of the type's last segment; an expression initializer becomes a closure
    /// over `this`.
    pub fn from_parts(field_type: EventPath, explicit_name: Option<String>, initializer: Initializer) -> (r: Projection)
        requires
            explicit_name is None ==> field_type.segments@.len() > 0,
        ensures
            r.field_type == field_type,
            match explicit_name {
                Some(name) => r.field_name == name,
                None => r.field_name@ == snake_case(field_type.segments@.last().ident@),
            },
            match initializer {
                Initializer::Closure(c) => r.initializer == c,
                Initializer::Expr(e) => r.initializer.params@ == "this"@ && r.initializer.body == e,
            },
    {
        let derived_name = match &explicit_name {
            Some(_) => String::new(),
            None => {
                let last = field_type.segments.len() - 1;
                to_snake_case(&field_type.segments[last].ident)
            },
        };
        Projection::with_derived_name(field_type, explicit_name, derived_name, initializer)
    }

    /// The projection declared with type `field_type`, the name given after
    /// `@` (if any), and `initializer`, where `derived_name` is the name the
    /// field takes when no name is given.
    pub fn with_derived_name(
        field_type: EventPath,
        explicit_name: Option<String>,
        derived_name: String,
        initializer: Initializer,
    ) -> (r: Projection)
        ensures
            r.field_type == field_type,
            match explicit_name {
                Some(name) => r.field_name == name,
                None => r.field_name == derived_name,
            },
            match initializer {
                Initializer::Closure(c) => r.initializer == c,
                Initializer::Expr(e) => r.initializer.params@ == "this"@ && r.initializer.body == e,
            },
    {
        let field_name = match explicit_name {
            Some(name) => name,
            None => derived_name,
        };
        let initializer = match initializer {
            Initializer::Closure(c) => c,
            Initializer::Expr(e) => Closure { params: String::from_str("this"), body: e },
        };
        Projection { field_name, field_type, initializer }
    }
}

/// The struct that holds a decision's projections.
pub fn projections_type_name(ident: &String) -> (r: String)
    ensures
        r@ == ident@ + "Projections"@,
{
    suffixed(ident, "Projections")
}

} // verus!
