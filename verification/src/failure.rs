//! Failures of other kinds, and how they become error values.
//!
//! A failure that was not made by this library is read through two questions
//! only: what is its message, and what caused it. [`Failure`] holds the
//! answers. [`Fault`] is what this library asks of anything that it wraps: a
//! chain of layers, and a way to turn into an [`Error`] with that chain.

use vstd::prelude::*;

use crate::error::{moved_to, wrap, Error, Link};
use crate::location::Location;

verus! {

/// A failure as it reaches this library.
pub enum Failure {
    /// A failure of another kind: its message, and its cause if it has one.
    Foreign { message: String, source: Option<Box<Failure>> },
    /// A failure that already is an error value of this library.
    Traced(Error),
}

impl Failure {
    /// The layers of this failure, outermost first: a foreign layer has its
    /// message and no place, an error value keeps its own layers as they are.
    pub open spec fn chain(&self) -> Seq<Link>
        decreases self,
    {
        match self {
            Failure::Foreign { message, source } => wrap(
                message@,
                None,
                match source {
                    Some(inner) => inner.chain(),
                    None => Seq::empty(),
                },
            ),
            Failure::Traced(e) => e@,
        }
    }

    /// A foreign failure with the given message and no cause.
    pub fn foreign(message: &str) -> (f: Failure)
        ensures
            f.chain() == wrap(message@, None, Seq::empty()),
    {
        Failure::Foreign { message: message.to_owned(), source: None }
    }

    /// A foreign failure with the given message, caused by `source`.
    pub fn caused_by(message: &str, source: Failure) -> (f: Failure)
        ensures
            f.chain() == wrap(message@, None, source.chain()),
    {
        Failure::Foreign { message: message.to_owned(), source: Some(Box::new(source)) }
    }
}

/// What can be wrapped in an [`Error`].
pub trait Fault: Sized {
    /// The layers of this failure, outermost first.
    spec fn links(&self) -> Seq<Link>;

    /// A failure has at least one layer.
    proof fn lemma_links_never_empty(&self)
        ensures
            self.links().len() > 0,
    ;

    /// Turns the failure into an error value with the same layers: every
    /// message is kept, and every place that a layer had.
    fn normalize(self) -> (e: Error)
        ensures
            e@ == self.links(),
    ;
}

impl Fault for Error {
    open spec fn links(&self) -> Seq<Link> {
        self@
    }

    proof fn lemma_links_never_empty(&self) {
        self.lemma_never_empty();
    }

    fn normalize(self) -> (e: Error) {
        self
    }
}

impl Fault for Failure {
    open spec fn links(&self) -> Seq<Link> {
        self.chain()
    }

    proof fn lemma_links_never_empty(&self) {
        match self {
            Failure::Foreign { .. } => {},
            Failure::Traced(e) => {
                e.lemma_never_empty();
            },
        }
    }

    fn normalize(self) -> (e: Error)
        decreases self,
    {
        match self {
            Failure::Foreign { message, source } => {
                let cause = match source {
                    Some(inner) => Some((*inner).normalize()),
                    None => None,
                };
                Error::assemble(message, cause, None)
            },
            Failure::Traced(e) => e,
        }
    }
}

impl Error {
    /// Converts a failure into an error: the message is that of the failure's
    /// outermost layer, the cause is the failure's own cause with all of its
    /// layers, and the place is `at`, where the conversion happens.
    pub fn from_error<E: Fault>(err: E, at: Location) -> (e: Error)
        ensures
            e@ == moved_to(err.links(), at@),
    {
        let (msg, cause, _) = err.normalize().dismantle();
        let e = Error::assemble(msg, cause, Some(at));
        proof {
            err.lemma_links_never_empty();
            assert(e@ =~= moved_to(err.links(), at@));
        }
        e
    }
}

} // verus!
