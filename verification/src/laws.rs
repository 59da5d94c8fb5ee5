//! What holds of the renderings and of the ways an error is made, for every
//! input.

use vstd::prelude::*;

use crate::decimal::decimal_text;
use crate::error::{leaf, moved_to, wrap, Link};
use crate::location::Site;
use crate::render::{cause_line, cause_lines, chained_text, concise_text, link_line, trace_text};

verus! {

/// The chain that results when the layers of `layers` are attached around
/// `base` one after the other, the first of them first: the last one attached
/// is the outermost.
pub open spec fn attached(layers: Seq<Link>, base: Seq<Link>) -> Seq<Link>
    decreases layers.len(),
{
    if layers.len() == 0 {
        base
    } else {
        wrap(layers.last().message, layers.last().site, attached(layers.drop_last(), base))
    }
}

/// The messages of `layers`, the last one first, each followed by `": "`.
pub open spec fn context_prefix(layers: Seq<Link>) -> Seq<char>
    decreases layers.len(),
{
    if layers.len() == 0 {
        Seq::empty()
    } else {
        layers.last().message + ": "@ + context_prefix(layers.drop_last())
    }
}

/// Attaching layers never empties a chain, and adds one layer each.
pub proof fn lemma_attached_len(layers: Seq<Link>, base: Seq<Link>)
    ensures
        attached(layers, base).len() == layers.len() + base.len(),
    decreases layers.len(),
{
    if layers.len() > 0 {
        lemma_attached_len(layers.drop_last(), base);
    }
}

/// The chained rendering of a wrapped error is the new message, `": "`, and
/// the chained rendering of the cause.
pub proof fn lemma_chained_of_wrap(message: Seq<char>, site: Option<Site>, cause: Seq<Link>)
    requires
        cause.len() > 0,
    ensures
        chained_text(wrap(message, site, cause)) == message + ": "@ + chained_text(cause),
{
    assert(wrap(message, site, cause).skip(1) =~= cause);
}

/// After any number of attachments around a leaf, the chained rendering is
/// the attached messages, the last attached first, and then the leaf's
/// message, with `": "` between them.
pub proof fn lemma_chained_of_attachments(
    layers: Seq<Link>,
    message: Seq<char>,
    site: Option<Site>,
)
    ensures
        chained_text(attached(layers, leaf(message, site))) == context_prefix(layers) + message,
    decreases layers.len(),
{
    if layers.len() == 0 {
        assert(context_prefix(layers) + message =~= message);
    } else {
        let inner = attached(layers.drop_last(), leaf(message, site));
        lemma_attached_len(layers.drop_last(), leaf(message, site));
        lemma_chained_of_attachments(layers.drop_last(), message, site);
        lemma_chained_of_wrap(layers.last().message, layers.last().site, inner);
        assert(layers.last().message + ": "@ + (context_prefix(layers.drop_last()) + message)
            =~= context_prefix(layers) + message);
    }
}

/// The concise rendering of a wrapped error is the new message, whatever the
/// cause and however deep its chain.
pub proof fn lemma_concise_of_wrap(message: Seq<char>, site: Option<Site>, cause: Seq<Link>)
    ensures
        concise_text(wrap(message, site, cause)) == message,
{
}

/// After at least one attachment, the concise rendering is the message that
/// was attached last.
pub proof fn lemma_concise_of_attachments(layers: Seq<Link>, base: Seq<Link>)
    requires
        layers.len() > 0,
    ensures
        concise_text(attached(layers, base)) == layers.last().message,
{
}

/// The trace of an error without a cause is `error:`, the place, `": "` and
/// the message, and nothing after it.
pub proof fn lemma_trace_of_leaf(message: Seq<char>, site: Site)
    ensures
        trace_text(leaf(message, Some(site))) == "error:"@ + site.file + ":"@ + decimal_text(
            site.line,
        ) + ":"@ + decimal_text(site.column) + ": "@ + message,
{
    assert(trace_text(leaf(message, Some(site))) =~= "error:"@ + site.file + ":"@ + decimal_text(
        site.line,
    ) + ":"@ + decimal_text(site.column) + ": "@ + message);
}

/// The line of each cause, in order.
pub open spec fn lines_of(causes: Seq<Link>) -> Seq<Seq<char>> {
    Seq::new(causes.len(), |i: int| cause_line(causes[i]))
}

/// The lines of the causes are the lines of the single causes, one after the
/// other.
pub proof fn lemma_cause_lines_flatten(causes: Seq<Link>)
    ensures
        cause_lines(causes) == lines_of(causes).flatten(),
    decreases causes.len(),
{
    if causes.len() > 0 {
        lemma_cause_lines_flatten(causes.skip(1));
        assert(lines_of(causes).drop_first() =~= lines_of(causes.skip(1)));
    }
}

/// The trace of an error with causes is the trace of its outermost layer
/// alone, an empty line, the line `caused by:`, and then exactly one line for
/// each cause, from the outermost cause to the innermost: a tab, what the
/// trace shows of the cause, and a line feed.
pub proof fn lemma_trace_lists_causes(chain: Seq<Link>)
    requires
        chain.len() > 1,
    ensures
        trace_text(chain) == trace_text(chain.take(1)) + "\n\ncaused by:\n"@ + lines_of(
            chain.skip(1),
        ).flatten(),
        lines_of(chain.skip(1)).len() == chain.len() - 1,
        forall|i: int|
            0 <= i < chain.len() - 1 ==> #[trigger] lines_of(chain.skip(1))[i] == "\t"@
                + link_line(chain[i + 1]) + "\n"@,
{
    lemma_cause_lines_flatten(chain.skip(1));
}

/// Converting a failure keeps the number of layers and the message of each;
/// the outermost layer gets the place of the conversion, and every layer
/// below it stays as it was.
pub proof fn lemma_conversion_keeps_layers(links: Seq<Link>, site: Site)
    requires
        links.len() > 0,
    ensures
        moved_to(links, site).len() == links.len(),
        forall|i: int|
            0 <= i < links.len() ==> (#[trigger] moved_to(links, site)[i]).message
                == links[i].message,
        moved_to(links, site)[0].site == Some(site),
        forall|i: int| 0 < i < links.len() ==> #[trigger] moved_to(links, site)[i] == links[i],
{
}

/// Context attached to one failure at two different places gives two errors
/// that differ in the place of their outermost layer and agree in the
/// message of their innermost cause, which is that of the failure.
pub proof fn lemma_places_tell_attachments_apart(
    first: Seq<char>,
    second: Seq<char>,
    here: Site,
    there: Site,
    failure: Seq<Link>,
)
    requires
        here != there,
        failure.len() > 0,
    ensures
        wrap(first, Some(here), failure)[0].site != wrap(second, Some(there), failure)[0].site,
        wrap(first, Some(here), failure).last().message == failure.last().message,
        wrap(second, Some(there), failure).last().message == failure.last().message,
{
}

} // verus!
