//! Attaching context to a value that may have failed.
//!
//! [`Context`] is defined for an optional value and for the outcome of an
//! operation whose failure is a [`Fault`]. On the failure path each operation
//! makes an [`Error`] at the place that the caller names; on the success path
//! the value is handed through untouched.

use vstd::prelude::*;

use crate::error::{leaf, moved_to, wrap, Error, Link};
use crate::failure::Fault;
use crate::location::{Location, Site};

verus! {

/// The message of an error made from an absent value without any context.
pub open spec fn absent_text() -> Seq<char> {
    "an optional value was None"@
}

/// The layers of the error that stands for `failure` when no context is
/// added: the failure's own layers with `site` as the place of the outermost
/// one, or, where there is no failure to speak for, a single layer with the
/// message of an absent value.
pub open spec fn plain(failure: Seq<Link>, site: Site) -> Seq<Link> {
    if failure.len() == 0 {
        leaf(absent_text(), Some(site))
    } else {
        moved_to(failure, site)
    }
}

/// Operations that turn a value that may have failed into a result whose
/// failure is an [`Error`].
pub trait Context<T>: Sized {
    /// The value on the success path; `None` on the failure path.
    spec fn value(&self) -> Option<T>;

    /// The layers of the failure that is being wrapped, outermost first;
    /// empty where the failure path carries no failure of its own.
    spec fn failure(&self) -> Seq<Link>;

    /// On the failure path, an error with `context` as its message, `at` as
    /// its place and the prior failure, with all of its layers, as its cause.
    /// On the success path, the value.
    fn context(self, context: &str, at: Location) -> (r: core::result::Result<T, Error>)
        ensures
            match self.value() {
                Some(t) => r == Ok::<T, Error>(t),
                None => r is Err && r->Err_0@ == wrap(context@, Some(at@), self.failure()),
            },
    ;

    /// As [`Context::context`], with the message made by `f`. The message is
    /// made on the failure path only: on the success path `f` is not called,
    /// and nothing is asked of it.
    fn with_context<F>(self, f: F, at: Location) -> (r: core::result::Result<T, Error>) where
        F: FnOnce() -> String + Send + Sync,

        requires
            self.value() is None ==> f.requires(()),
        ensures
            match self.value() {
                Some(t) => r == Ok::<T, Error>(t),
                None => r is Err && exists|message: String| #[trigger]
                    f.ensures((), message) && r->Err_0@ == wrap(
                        message@,
                        Some(at@),
                        self.failure(),
                    ),
            },
    ;

    /// Converts without adding a layer: on the failure path, the error that
    /// stands for the failure itself, with `at` as its place.
    fn result(self, at: Location) -> (r: core::result::Result<T, Error>)
        ensures
            match self.value() {
                Some(t) => r == Ok::<T, Error>(t),
                None => r is Err && r->Err_0@ == plain(self.failure(), at@),
            },
    ;
}

impl<T> Context<T> for Option<T> {
    open spec fn value(&self) -> Option<T> {
        *self
    }

    open spec fn failure(&self) -> Seq<Link> {
        Seq::empty()
    }

    fn context(self, context: &str, at: Location) -> (r: core::result::Result<T, Error>) {
        match self {
            Some(t) => Ok(t),
            None => {
                let e = Error::new(context, at);
                Err(e)
            },
        }
    }

    fn with_context<F>(self, f: F, at: Location) -> (r: core::result::Result<T, Error>) where
        F: FnOnce() -> String + Send + Sync,
    {
        match self {
            Some(t) => Ok(t),
            None => {
                let message = f();
                let e = Error::assemble(message, None, Some(at));
                Err(e)
            },
        }
    }

    fn result(self, at: Location) -> (r: core::result::Result<T, Error>) {
        match self {
            Some(t) => Ok(t),
            None => Err(Error::new("an optional value was None", at)),
        }
    }
}

impl<T, E: Fault> Context<T> for core::result::Result<T, E> {
    open spec fn value(&self) -> Option<T> {
        match self {
            Ok(t) => Some(*t),
            Err(_) => None,
        }
    }

    open spec fn failure(&self) -> Seq<Link> {
        match self {
            Ok(_) => Seq::empty(),
            Err(e) => e.links(),
        }
    }

    fn context(self, context: &str, at: Location) -> (r: core::result::Result<T, Error>) {
        match self {
            Ok(t) => Ok(t),
            Err(e) => Err(Error::assemble(context.to_owned(), Some(e.normalize()), Some(at))),
        }
    }

    fn with_context<F>(self, f: F, at: Location) -> (r: core::result::Result<T, Error>) where
        F: FnOnce() -> String + Send + Sync,
    {
        match self {
            Ok(t) => Ok(t),
            Err(e) => {
                let message = f();
                Err(Error::assemble(message, Some(e.normalize()), Some(at)))
            },
        }
    }

    fn result(self, at: Location) -> (r: core::result::Result<T, Error>) {
        match self {
            Ok(t) => Ok(t),
            Err(e) => {
                proof {
                    e.lemma_links_never_empty();
                }
                Err(Error::from_error(e, at))
            },
        }
    }
}

} // verus!
