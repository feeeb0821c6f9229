//! The chain reducer: collapsing repeated neighbours in a causal chain.
//!
//! A chain is read from the most specific message (first) to the root cause
//! (last). A context layer often repeats the text of the cause below it;
//! reduction drops such repeats and nothing else.

use vstd::prelude::*;
use crate::text::joined;

verus! {

/// Trusted: `anyhow::Error`, carried through as a value that only the
/// functions below look into.
#[verifier::external_type_specification]
#[verifier::external_body]
pub struct ExAnyhowError(anyhow::Error);

/// The messages of an `anyhow::Error`, most specific first: the text of the
/// error itself, then of its source, then of that source's source, as
/// `anyhow::Error::chain` walks them and `Display` prints each.
///
/// The name presumes what every error type is expected to honour: that a
/// cause prints as the same text each time it is asked, and that the sources
/// come to an end.
pub uninterp spec fn chain_of(error: anyhow::Error) -> Seq<Seq<char>>;

/// Trusted: walks `anyhow::Error::chain` and renders each link with its
/// `Display`. The walk starts at the error itself, so there is always a first
/// message.
#[verifier::external_body]
pub(crate) fn chain_messages(error: &anyhow::Error) -> (r: Vec<String>)
    ensures
        r.deep_view() == chain_of(*error),
        r.len() >= 1,
{
    error.chain().map(|link| link.to_string()).collect()
}

/// Trusted: the length of `anyhow::Error::chain`, which counts the error
/// itself and each source below it, and so is never zero.
#[verifier::external_body]
pub(crate) fn chain_length(error: &anyhow::Error) -> (r: usize)
    ensures
        r == chain_of(*error).len(),
        r >= 1,
{
    error.chain().len()
}

/// Trusted: `anyhow::Error::msg` on a `String`. The new error has no source
/// and prints as the message, so its chain is that one message.
#[verifier::external_body]
pub(crate) fn error_from_message(message: String) -> (r: anyhow::Error)
    ensures
        chain_of(r) == seq![message@],
{
    anyhow::Error::msg(message)
}

/// Trusted: `anyhow::Error::context` with a `String`. The result prints as the
/// context and has the wrapped error as its source, so the context comes
/// first and the old chain follows unchanged.
#[verifier::external_body]
pub(crate) fn with_context(error: anyhow::Error, message: String) -> (r: anyhow::Error)
    ensures
        chain_of(r) == seq![message@] + chain_of(error),
{
    error.context(message)
}

/// Trusted: the alternate `Display` of `anyhow::Error` (`{:#}`), which prints
/// the first message and then each further one after a colon and a space.
#[verifier::external_body]
pub(crate) fn render_line(error: &anyhow::Error) -> (r: String)
    ensures
        r@ == joined(chain_of(*error), ": "@),
{
    format!("{:#}", error)
}

/// How every report of `chain` opens: with the first message as it stands
/// and, where causes follow, with the blank line and the heading that
/// announce them and the line break that starts the first cause.
pub open spec fn report_opening(chain: Seq<Seq<char>>) -> Seq<char> {
    if chain.len() > 1 {
        chain.first() + "\n\nCaused by:\n"@
    } else {
        chain.first()
    }
}

/// Whether `report` can be the operator's report of `chain`. It opens as
/// every report of the chain does. The report of a single message is that
/// message alone, unless a blank line and a backtrace follow it.
pub open spec fn is_report_of(chain: Seq<Seq<char>>, report: Seq<char>) -> bool {
    &&& report_opening(chain).is_prefix_of(report)
    &&& chain.len() == 1 ==> report == chain.first() || (chain.first() + "\n\n"@).is_prefix_of(
        report,
    )
}

/// Trusted: the `Debug` of `anyhow::Error` (`{:?}`). It prints the first
/// message; if the error has a source, a blank line, the heading
/// `Caused by:` and, each on a new line, the causes, indented; last, after a
/// blank line, a backtrace if the process captured one. How a cause is
/// indented depends on how its `Display` hands over its text, and whether
/// there is a backtrace on the process: neither is claimed.
#[verifier::external_body]
pub(crate) fn render_report(error: &anyhow::Error) -> (r: String)
    ensures
        is_report_of(chain_of(*error), r@),
{
    format!("{:?}", error)
}

/// Every report of a chain opens with the chain's first message.
pub proof fn lemma_report_opens_with_first(chain: Seq<Seq<char>>, report: Seq<char>)
    requires
        is_report_of(chain, report),
    ensures
        chain.first().is_prefix_of(report),
{
    let opening = report_opening(chain);
    let first = chain.first();
    assert(first.is_prefix_of(opening)) by {
        if chain.len() > 1 {
            assert(opening.subrange(0, first.len() as int) =~= first);
        }
    }
    assert(report.subrange(0, first.len() as int) =~= opening.subrange(0, first.len() as int)) by {
        assert(opening =~= report.subrange(0, opening.len() as int));
    }
}

/// Where causes follow the first message, no report of the chain stops at
/// that message: the heading that announces the causes comes behind it.
pub proof fn lemma_report_announces_causes(chain: Seq<Seq<char>>, report: Seq<char>)
    requires
        is_report_of(chain, report),
        chain.len() > 1,
    ensures
        report.len() >= chain.first().len() + 13,
        report.subrange(chain.first().len() as int, chain.first().len() as int + 13)
            == "\n\nCaused by:\n"@,
{
    reveal_strlit("\n\nCaused by:\n");
    let first = chain.first();
    let heading = "\n\nCaused by:\n"@;
    let opening = first + heading;
    assert(opening =~= report.subrange(0, opening.len() as int));
    assert(report.subrange(first.len() as int, first.len() as int + 13) =~= heading) by {
        assert forall|i: int| 0 <= i < 13 implies report[first.len() + i] == heading[i] by {
            assert(report.subrange(0, opening.len() as int)[first.len() + i] == opening[first.len()
                + i]);
        }
    }
}

/// `chain` with every run of equal neighbours collapsed to its first member.
pub open spec fn dedup_adjacent(chain: Seq<Seq<char>>) -> Seq<Seq<char>>
    decreases chain.len(),
{
    if chain.len() == 0 {
        chain
    } else {
        let kept = dedup_adjacent(chain.drop_last());
        if kept.len() > 0 && kept.last() == chain.last() {
            kept
        } else {
            kept.push(chain.last())
        }
    }
}

/// No message of `chain` repeats the one before it.
pub open spec fn no_adjacent_repeats(chain: Seq<Seq<char>>) -> bool {
    forall|i: int| 0 < i < chain.len() ==> chain[i - 1] != #[trigger] chain[i]
}

/// Collapses every run of equal neighbours in `messages` to one message.
pub fn dedup_messages(messages: Vec<String>) -> (r: Vec<String>)
    ensures
        r.deep_view() == dedup_adjacent(messages.deep_view()),
{
    let ghost texts = messages.deep_view();
    let mut kept: Vec<String> = Vec::new();
    let mut i: usize = 0;
    assert(texts.take(0) =~= Seq::<Seq<char>>::empty());
    assert(kept.deep_view() =~= dedup_adjacent(texts.take(0)));
    while i < messages.len()
        invariant
            i <= messages.len(),
            texts == messages.deep_view(),
            texts.len() == messages.len(),
            kept.deep_view() == dedup_adjacent(texts.take(i as int)),
        decreases messages.len() - i,
    {
        let ghost before = kept.deep_view();
        assert(texts.take(i + 1).drop_last() =~= texts.take(i as int));
        assert(texts.take(i + 1).last() == messages[i as int]@);
        let n = kept.len();
        let repeats = n > 0 && kept[n - 1] == messages[i];
        if !repeats {
            kept.push(messages[i].clone());
            assert(kept.deep_view() =~= before.push(messages[i as int]@));
        }
        i += 1;
    }
    assert(texts.take(i as int) =~= texts);
    kept
}

/// Builds the error whose chain is `messages`: the last message is the root
/// cause, and each earlier one is laid over it as context, nearest first.
pub fn rebuild(messages: Vec<String>) -> (r: anyhow::Error)
    requires
        messages.len() >= 1,
    ensures
        chain_of(r) == messages.deep_view(),
{
    let ghost texts = messages.deep_view();
    let n = messages.len();
    let mut i: usize = n - 1;
    let mut error = error_from_message(messages[i].clone());
    assert(chain_of(error) =~= texts.skip(i as int));
    while i > 0
        invariant
            i < n,
            n == messages.len(),
            texts == messages.deep_view(),
            texts.len() == n,
            chain_of(error) == texts.skip(i as int),
        decreases i,
    {
        i -= 1;
        error = with_context(error, messages[i].clone());
        assert(chain_of(error) =~= texts.skip(i as int));
    }
    assert(texts.skip(0) =~= texts);
    error
}

/// Removes repeated neighbours from an error's chain.
///
/// The causes are kept as text only: the error that comes back is built anew
/// from the remaining messages, root cause first, each further message laid
/// over it as context.
pub fn dedup_error_chain(error: &mut anyhow::Error)
    ensures
        chain_of(*final(error)) == dedup_adjacent(chain_of(*old(error))),
{
    let messages = chain_messages(error);
    let kept = dedup_messages(messages);
    proof {
        lemma_dedup_keeps_ends(chain_of(*old(error)));
    }
    *error = rebuild(kept);
}

/// Reduction keeps a chain's first message and its last, and an empty chain
/// is the only one that reduces to nothing.
pub proof fn lemma_dedup_keeps_ends(chain: Seq<Seq<char>>)
    ensures
        dedup_adjacent(chain).len() <= chain.len(),
        chain.len() > 0 ==> dedup_adjacent(chain).len() > 0,
        chain.len() > 0 ==> dedup_adjacent(chain).first() == chain.first(),
        chain.len() > 0 ==> dedup_adjacent(chain).last() == chain.last(),
    decreases chain.len(),
{
    if chain.len() > 0 {
        lemma_dedup_keeps_ends(chain.drop_last());
    }
}

/// A reduced chain has no message that repeats the one before it.
pub proof fn lemma_dedup_has_no_repeats(chain: Seq<Seq<char>>)
    ensures
        no_adjacent_repeats(dedup_adjacent(chain)),
    decreases chain.len(),
{
    if chain.len() > 0 {
        lemma_dedup_has_no_repeats(chain.drop_last());
    }
}

/// A chain without repeated neighbours is left as it is.
pub proof fn lemma_dedup_fixes_reduced(chain: Seq<Seq<char>>)
    requires
        no_adjacent_repeats(chain),
    ensures
        dedup_adjacent(chain) == chain,
    decreases chain.len(),
{
    if chain.len() > 0 {
        let front = chain.drop_last();
        assert(no_adjacent_repeats(front)) by {
            assert forall|i: int| 0 < i < front.len() implies front[i - 1] != #[trigger] front[i] by {
                assert(front[i] == chain[i]);
                assert(front[i - 1] == chain[i - 1]);
            }
        }
        lemma_dedup_fixes_reduced(front);
        if front.len() > 0 {
            assert(front.last() == chain[chain.len() - 2]);
            assert(chain[chain.len() - 1] == chain.last());
        }
        assert(front.push(chain.last()) =~= chain);
    }
}

/// Reducing twice gives what reducing once gives.
pub proof fn lemma_dedup_idempotent(chain: Seq<Seq<char>>)
    ensures
        dedup_adjacent(dedup_adjacent(chain)) == dedup_adjacent(chain),
{
    lemma_dedup_has_no_repeats(chain);
    lemma_dedup_fixes_reduced(dedup_adjacent(chain));
}

/// A chain of one message reduces to itself.
pub proof fn lemma_dedup_single(message: Seq<char>)
    ensures
        dedup_adjacent(seq![message]) == seq![message],
{
    assert(no_adjacent_repeats(seq![message]));
    lemma_dedup_fixes_reduced(seq![message]);
}

/// `chain` without each message that equals the one just before it in
/// `chain` itself.
pub open spec fn without_repeats(chain: Seq<Seq<char>>) -> Seq<Seq<char>>
    decreases chain.len(),
{
    if chain.len() == 0 {
        chain
    } else if chain.len() >= 2 && chain[chain.len() - 2] == chain.last() {
        without_repeats(chain.drop_last())
    } else {
        without_repeats(chain.drop_last()).push(chain.last())
    }
}

/// Reduction removes exactly the messages that repeat their left neighbour:
/// a message that differs from the one before it stays, however often its
/// text occurs elsewhere in the chain.
pub proof fn lemma_dedup_drops_exactly_repeats(chain: Seq<Seq<char>>)
    ensures
        dedup_adjacent(chain) == without_repeats(chain),
    decreases chain.len(),
{
    if chain.len() > 0 {
        let front = chain.drop_last();
        lemma_dedup_drops_exactly_repeats(front);
        lemma_dedup_keeps_ends(front);
        if front.len() > 0 {
            assert(front.last() == chain[chain.len() - 2]);
        }
    }
}

} // verus!
