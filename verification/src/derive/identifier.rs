//! Reading the derive macros' attributes: the `identifier(...)` argument and
//! its validation, and the names of the items that the macros generate.

use vstd::prelude::*;

verus! {

/// One token of an attribute's argument list.
#[derive(Debug)]
pub enum TokenTree {
    Ident(String),
    Punct(char),
    Literal(String),
    Group,
}

/// The shape of an attribute: a bare path, a path with a parenthesised list,
/// or a name-value pair.
#[derive(Debug)]
pub enum Meta {
    Path,
    List(Vec<TokenTree>),
    NameValue,
}

/// Errors in reading an attribute.
#[derive(Debug)]
pub enum AttributeError {
    /// The attribute needs a parenthesised list.
    ExpectedList,
    /// The `identifier` attribute holds something other than one identifier.
    UnsupportedShape,
    /// The value was refused, with the reason.
    Custom(String),
}

/// The identifier that an `identifier(...)` attribute names: exactly one
/// identifier token inside its parentheses.
pub open spec fn spec_identifier(meta: Meta) -> Result<Seq<char>, AttributeError> {
    match meta {
        Meta::List(tokens) => if tokens@.len() == 1 && tokens@[0] is Ident {
            Ok(tokens@[0]->Ident_0@)
        } else {
            Err(AttributeError::UnsupportedShape)
        },
        _ => Err(AttributeError::ExpectedList),
    }
}

/// An `identifier(...)` holding exactly one identifier token names that
/// token's text, unchanged; any other list is refused as of unsupported shape,
/// and an attribute without a list as not a list.
pub proof fn law_identifier_is_the_token(meta: Meta)
    ensures
        meta matches Meta::List(tokens) ==> (tokens@.len() == 1 && tokens@[0] is Ident ==> spec_identifier(meta)
            == Ok::<Seq<char>, AttributeError>(tokens@[0]->Ident_0@)),
        meta matches Meta::List(tokens) ==> (!(tokens@.len() == 1 && tokens@[0] is Ident) ==> spec_identifier(
            meta,
        ) == Err::<Seq<char>, AttributeError>(AttributeError::UnsupportedShape)),
        !(meta is List) ==> spec_identifier(meta) == Err::<Seq<char>, AttributeError>(AttributeError::ExpectedList),
{
}

pub fn parse(meta: &Meta) -> (r: Result<String, AttributeError>)
    ensures
        meta matches Meta::List(tokens) ==> (tokens@.len() == 1 && tokens@[0] is Ident ==> (r is Ok
            && r->Ok_0@ == tokens@[0]->Ident_0@)),
        meta matches Meta::List(tokens) ==> (!(tokens@.len() == 1 && tokens@[0] is Ident) ==> (r matches Err(
            AttributeError::UnsupportedShape,
        ))),
        !(meta is List) ==> (r matches Err(AttributeError::ExpectedList)),
        match (r, spec_identifier(*meta)) {
            (Ok(s), Ok(t)) => s@ == t,
            (Err(a), Err(b)) => a == b,
            _ => false,
        },
{
    match meta {
        Meta::List(tokens) => {
            if tokens.len() == 1 {
                match &tokens[0] {
                    TokenTree::Ident(ident) => Ok(ident.clone()),
                    _ => Err(AttributeError::UnsupportedShape),
                }
            } else {
                Err(AttributeError::UnsupportedShape)
            }
        },
        _ => Err(AttributeError::ExpectedList),
    }
}

/// The `Identifier` derive's input: the type and the identifier it is stored under.
#[derive(Debug)]
pub struct Identifier {
    pub ident: String,
    pub identifier: String,
}

impl Identifier {
    /// Passes `ok` on when the store accepted the identifier (`checked`), else the
    /// store's reason as the attribute's error.
    pub fn validate<T>(checked: Result<(), String>, ok: T) -> (r: Result<T, AttributeError>)
        ensures
            match checked {
                Ok(()) => r == Ok::<T, AttributeError>(ok),
                Err(reason) => r == Err::<T, AttributeError>(AttributeError::Custom(reason)),
            },
    {
        match checked {
            Ok(()) => Ok(ok),
            Err(reason) => Err(AttributeError::Custom(reason)),
        }
    }
}

} // verus!
