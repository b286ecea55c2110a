//! Route-level logic: the error-chain formatter and the route submodules.

use vstd::prelude::*;

pub mod newsletter;
pub mod subscriptions_confirm;

verus! {

use crate::encoding::push_str;

/// One rendered source of an error chain.
pub open spec fn caused_by_block(message: Seq<char>) -> Seq<char> {
    "Caused by:\n\t"@ + message + "\n"@
}

/// The rendered blocks for a sequence of error sources, in order.
pub open spec fn caused_by_chain(messages: Seq<Seq<char>>) -> Seq<char>
    decreases messages.len(),
{
    if messages.len() == 0 {
        Seq::empty()
    } else {
        caused_by_chain(messages.drop_last()) + caused_by_block(messages.last())
    }
}

/// What the error formatter renders for an error chain, outermost message
/// first: the head message, a blank line, then one block per source.
pub open spec fn error_chain_text(messages: Seq<Seq<char>>) -> Seq<char> {
    if messages.len() == 0 {
        Seq::empty()
    } else {
        messages[0] + "\n\n"@ + caused_by_chain(messages.skip(1))
    }
}

/// Render an error and its chain of sources for logging, outermost first.
pub fn error_chain_fmt(messages: &Vec<String>) -> (r: String)
    ensures
        r@ == error_chain_text(messages.deep_view()),
{
    let mut out = String::new();
    if messages.len() == 0 {
        return out;
    }
    let head = &messages[0];
    push_str(&mut out, head.as_str());
    push_str(&mut out, "\n\n");
    let mut i: usize = 1;
    while i < messages.len()
        invariant
            1 <= i <= messages@.len(),
            out@ == messages.deep_view()[0] + "\n\n"@ + caused_by_chain(
                messages.deep_view().subrange(1, i as int),
            ),
        decreases messages@.len() - i,
    {
        push_str(&mut out, "Caused by:\n\t");
        let m = &messages[i];
        push_str(&mut out, m.as_str());
        push_str(&mut out, "\n");
        proof {
            let ms = messages.deep_view();
            assert(ms.subrange(1, i + 1 as int).drop_last() =~= ms.subrange(1, i as int));
            assert(ms.subrange(1, i + 1 as int).last() == ms[i as int]);
            assert(out@ =~= ms[0] + "\n\n"@ + caused_by_chain(ms.subrange(1, i + 1 as int)));
        }
        i += 1;
    }
    proof {
        let ms = messages.deep_view();
        assert(ms.subrange(1, ms.len() as int) =~= ms.skip(1));
    }
    out
}

} // verus!
