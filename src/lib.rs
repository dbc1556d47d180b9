//! A decorator for a request pipeline that runs a wrapped middleware only for
//! the requests that a predicate accepts, and passes every other request
//! straight on to the next stage.

pub mod conditional;

pub use conditional::{ConditionalMiddleware, Route};
