//! A weakly typed error value for applications: one type that stands for
//! failures of every kind, remembers what caused it, and records the place in
//! the source where each layer of context was attached.
//!
//! The value is built by [`Error::new`], [`Error::from_error`] or one of the
//! operations of [`Context`], and is read through three renderings: the
//! message alone ([`Error::concise`]), the chain of messages on one line
//! ([`Error::chained`]), and a trace that lists every layer with its place
//! ([`Error::trace`]). What holds of them for every input is proved in
//! [`laws`].
//!
//! Beside the error value stand the rules of an upload service that uses it:
//! bytes written in base64 ([`bytes_base64`]), durations written as whole
//! seconds ([`duration_positive_seconds`]), and the parts of an upload
//! request ([`upload`]).

pub mod bytes_base64;
pub mod context;
pub mod decimal;
pub mod duration_positive_seconds;
pub mod error;
pub mod failure;
pub mod laws;
pub mod location;
pub mod render;
pub mod upload;

pub use context::Context;
pub use error::{bail, err, Error, Link};
pub use failure::{Failure, Fault};
pub use location::{Location, Site};
