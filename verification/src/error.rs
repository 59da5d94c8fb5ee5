//! The error value: a message, the place where it was made, and what caused it.

use vstd::prelude::*;
use vstd::string::StringExecFns;

use crate::location::{Location, Site};

verus! {

/// One layer of an error, as mathematics: its message and, where the layer was
/// made by this library, the place where that happened.
pub struct Link {
    pub message: Seq<char>,
    pub site: Option<Site>,
}

/// What an optional place stands for.
pub open spec fn site_of(origin: Option<Location>) -> Option<Site> {
    match origin {
        Some(at) => Some(at@),
        None => None,
    }
}

/// A weakly typed error. It owns its message, at most one cause, and the place
/// where it was made. The causes form a finite chain that ends in an error
/// without a cause; a layer that stands for a failure of another kind has its
/// message but no place.
///
/// The view of an error is its chain of layers, outermost first. It is never
/// empty.
pub struct Error {
    msg: String,
    wraps: Option<Box<Error>>,
    origin: Option<Location>,
}

impl View for Error {
    type V = Seq<Link>;

    closed spec fn view(&self) -> Seq<Link> {
        self.chain()
    }
}

/// The chain of a single layer without a cause.
pub open spec fn leaf(message: Seq<char>, site: Option<Site>) -> Seq<Link> {
    seq![Link { message, site }]
}

/// The chain that results when a new outermost layer is put around `cause`.
pub open spec fn wrap(message: Seq<char>, site: Option<Site>, cause: Seq<Link>) -> Seq<Link> {
    leaf(message, site) + cause
}

/// The chain `links` with the place of its outermost layer replaced by `site`.
pub open spec fn moved_to(links: Seq<Link>, site: Site) -> Seq<Link>
    recommends
        links.len() > 0,
{
    wrap(links[0].message, Some(site), links.skip(1))
}

impl Error {
    /// The layers from this one inwards.
    pub closed spec fn chain(&self) -> Seq<Link>
        decreases self,
    {
        wrap(
            self.msg@,
            site_of(self.origin),
            match self.wraps {
                Some(inner) => inner.chain(),
                None => Seq::empty(),
            },
        )
    }

    /// Every error has at least its own layer.
    pub proof fn lemma_never_empty(&self)
        ensures
            self@.len() > 0,
    {
    }

    /// An error with the given message, no cause, and `at` as its place.
    pub fn new(msg: &str, at: Location) -> (e: Error)
        ensures
            e@ == leaf(msg@, Some(at@)),
    {
        let e = Error { msg: String::from_str(msg), wraps: None, origin: Some(at) };
        assert(e@ =~= leaf(msg@, Some(at@)));
        e
    }

    /// An error made of its parts: the message, the cause if there is one, and
    /// the place if there is one.
    pub(crate) fn assemble(msg: String, cause: Option<Error>, origin: Option<Location>) -> (e: Error)
        ensures
            e@ == wrap(
                msg@,
                site_of(origin),
                match cause {
                    Some(inner) => inner@,
                    None => Seq::empty(),
                },
            ),
    {
        let wraps = match cause {
            Some(inner) => Some(Box::new(inner)),
            None => None,
        };
        Error { msg, wraps, origin }
    }

    /// The message of the outermost layer.
    pub fn message(&self) -> (msg: &str)
        ensures
            msg@ == self@[0].message,
    {
        self.msg.as_str()
    }

    /// The place where this error was made, if it has one.
    pub fn location(&self) -> (at: Option<Location>)
        ensures
            site_of(at) == self@[0].site,
    {
        self.origin
    }

    /// The cause of this error, if it has one: a reference, never ownership.
    pub fn source(&self) -> (cause: Option<&Error>)
        ensures
            match cause {
                Some(inner) => self@.len() > 1 && inner@ == self@.skip(1),
                None => self@.len() == 1,
            },
    {
        match &self.wraps {
            Some(inner) => {
                assert(self@.skip(1) =~= inner@);
                Some(&**inner)
            },
            None => None,
        }
    }

    /// Takes the error apart: the message, the cause and the place.
    pub(crate) fn dismantle(self) -> (parts: (String, Option<Error>, Option<Location>))
        ensures
            self@ == wrap(
                parts.0@,
                site_of(parts.2),
                match parts.1 {
                    Some(inner) => inner@,
                    None => Seq::empty(),
                },
            ),
    {
        let Error { msg, wraps, origin } = self;
        let cause = match wraps {
            Some(inner) => Some(*inner),
            None => None,
        };
        (msg, cause, origin)
    }
}

/// An error with the given message, no cause, and `at` as its place: the
/// value of [`Error::new`], for use where an error is made and kept.
pub fn err(message: &str, at: Location) -> (e: Error)
    ensures
        e@ == leaf(message@, Some(at@)),
{
    Error::new(message, at)
}

/// The failure that a function returns at once when it gives up: an error
/// with the given message, no cause, and `at` as its place.
pub fn bail<T>(message: &str, at: Location) -> (r: core::result::Result<T, Error>)
    ensures
        r is Err,
        r->Err_0@ == leaf(message@, Some(at@)),
{
    Err(Error::new(message, at))
}

} // verus!
