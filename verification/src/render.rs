//! The three renderings of an error: the message alone, the chain of messages
//! on one line, and the trace with the place of every layer.

use vstd::prelude::*;
use vstd::string::StringExecFns;

use crate::error::{Error, Link};
use crate::location::site_text;

verus! {

/// The message of the outermost layer, and nothing of its causes.
pub open spec fn concise_text(chain: Seq<Link>) -> Seq<char>
    recommends
        chain.len() > 0,
{
    chain[0].message
}

/// The messages of all layers on one line, outermost first, with `": "`
/// between a layer and its cause.
pub open spec fn chained_text(chain: Seq<Link>) -> Seq<char>
    decreases chain.len(),
{
    if chain.len() == 0 {
        Seq::empty()
    } else if chain.len() == 1 {
        chain[0].message
    } else {
        chain[0].message + ": "@ + chained_text(chain.skip(1))
    }
}

/// What the trace shows of one layer: `<file>:<line>:<column>: <message>`
/// where the layer has a place, the message alone where it has none.
pub open spec fn link_line(link: Link) -> Seq<char> {
    match link.site {
        Some(site) => site_text(site) + ": "@ + link.message,
        None => link.message,
    }
}

/// The line of one cause in a trace: a tab, what the trace shows of the
/// cause, and a line feed.
pub open spec fn cause_line(link: Link) -> Seq<char> {
    "\t"@ + link_line(link) + "\n"@
}

/// The lines of the causes in a trace: the line of each cause, in order.
pub open spec fn cause_lines(causes: Seq<Link>) -> Seq<char>
    decreases causes.len(),
{
    if causes.len() == 0 {
        Seq::empty()
    } else {
        cause_line(causes[0]) + cause_lines(causes.skip(1))
    }
}

/// The trace: `error:` and the outermost layer; then, if there is a cause, an
/// empty line, the line `caused by:`, and the lines of the causes.
pub open spec fn trace_text(chain: Seq<Link>) -> Seq<char>
    recommends
        chain.len() > 0,
{
    if chain.len() <= 1 {
        "error:"@ + link_line(chain[0])
    } else {
        "error:"@ + link_line(chain[0]) + "\n\ncaused by:\n"@ + cause_lines(chain.skip(1))
    }
}

impl Error {
    /// Appends to `out` what the trace shows of the outermost layer.
    fn push_line(&self, out: &mut String)
        ensures
            final(out)@ == old(out)@ + link_line(self@[0]),
    {
        match self.location() {
            Some(at) => {
                at.push_text(out);
                out.append(": ");
                out.append(self.message());
                assert(final(out)@ =~= old(out)@ + link_line(self@[0]));
            },
            None => {
                out.append(self.message());
            },
        }
    }

    /// Renders the message only.
    pub fn concise(&self) -> (text: String)
        ensures
            text@ == concise_text(self@),
    {
        String::from_str(self.message())
    }

    /// Renders the message and, after `": "`, the cause in the same way.
    pub fn chained(&self) -> (text: String)
        ensures
            text@ == chained_text(self@),
        decreases self@.len(),
    {
        let mut text = String::from_str(self.message());
        match self.source() {
            Some(cause) => {
                let rest = cause.chained();
                text.append(": ");
                text.append(rest.as_str());
                assert(text@ =~= chained_text(self@));
            },
            None => {},
        }
        text
    }

    /// Renders the trace: the outermost layer with its place, then every cause
    /// on a line of its own.
    pub fn trace(&self) -> (text: String)
        ensures
            text@ == trace_text(self@),
    {
        let mut text = String::from_str("error:");
        self.push_line(&mut text);
        let mut current = self.source();
        if current.is_none() {
            return text;
        }
        text.append("\n\ncaused by:\n");
        assert(text@ =~= "error:"@ + link_line(self@[0]) + "\n\ncaused by:\n"@);
        while current.is_some()
            invariant
                self@.len() > 1,
                text@ + cause_lines(
                    match current {
                        Some(cause) => cause@,
                        None => Seq::empty(),
                    },
                ) == trace_text(self@),
            decreases
                match current {
                    Some(cause) => cause@.len(),
                    None => 0,
                },
        {
            let cause = current.unwrap();
            let ghost before = text@;
            text.append("\t");
            cause.push_line(&mut text);
            text.append("\n");
            current = cause.source();
            proof {
                cause.lemma_never_empty();
                let rest = match current {
                    Some(next) => next@,
                    None => Seq::empty(),
                };
                assert(rest =~= cause@.skip(1));
                assert(text@ =~= before + cause_line(cause@[0]));
                assert(text@ + cause_lines(rest) =~= before + cause_lines(cause@));
            }
        }
        text
    }
}

} // verus!
