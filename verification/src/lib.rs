//! A verified model of the eventric decision and projection library: event
//! envelopes, the bookkeeping around enacting an action against an event
//! stream, the routing of recognised events to projections, and the pure
//! transformations that the derive macros perform on their attribute input.

pub mod store;

pub mod event;
pub mod decision;
pub mod action;
pub mod enact;
pub mod projection;
pub mod routing;
pub mod derive;
