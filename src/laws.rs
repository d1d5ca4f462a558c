use vstd::prelude::*;

use crate::engine::{single_shot_outcome, streaming_outcome};
use crate::options::CompletionOptions;
use crate::outcome::Diagnostic;
use crate::request::max_tokens_fits;
use crate::single_shot::answer_spec;
use crate::stream::{stream_warnings, streamed, StreamEvent};

verus! {

/// A response unit that carries at least one choice.
pub open spec fn has_delta(ev: StreamEvent) -> bool {
    ev matches StreamEvent::Unit(choices) && choices@.len() > 0
}

/// The text delta of a unit's first choice.
pub open spec fn first_delta(ev: StreamEvent) -> Seq<char> {
    match ev {
        StreamEvent::Unit(choices) => choices@[0]@,
        _ => Seq::empty(),
    }
}

/// The text deltas of `units`, in order.
pub open spec fn deltas(units: Seq<StreamEvent>) -> Seq<Seq<char>> {
    units.map_values(|ev: StreamEvent| first_delta(ev))
}

/// Units with a choice, put in front of any other events, contribute their
/// deltas in order and no warning.
pub proof fn lemma_units_then(units: Seq<StreamEvent>, rest: Seq<StreamEvent>)
    requires
        forall|i: int| 0 <= i < units.len() ==> has_delta(#[trigger] units[i]),
    ensures
        streamed(units + rest) == deltas(units) + streamed(rest),
        stream_warnings(units + rest) == stream_warnings(rest),
    decreases units.len(),
{
    if units.len() == 0 {
        assert(units + rest =~= rest);
        assert(deltas(units) + streamed(rest) =~= streamed(rest));
    } else {
        let tail = units.drop_first();
        assert forall|i: int| 0 <= i < tail.len() implies has_delta(#[trigger] tail[i]) by {
            assert(tail[i] == units[i + 1]);
        }
        lemma_units_then(tail, rest);
        assert((units + rest).drop_first() =~= tail + rest);
        assert((units + rest)[0] == units[0]);
        assert(has_delta(units[0]));
        assert(deltas(units) =~= seq![first_delta(units[0])] + deltas(tail));
        assert(seq![first_delta(units[0])] + (deltas(tail) + streamed(rest)) =~= deltas(units)
            + streamed(rest));
    }
}

/// Whatever number of units the stream delivers, each with a choice, the
/// caller receives their text deltas in the order of arrival, with no warning.
pub proof fn lemma_stream_keeps_order(options: CompletionOptions, units: Seq<StreamEvent>)
    requires
        max_tokens_fits(options.max_decoding_tokens),
        forall|i: int| 0 <= i < units.len() ==> has_delta(#[trigger] units[i]),
    ensures
        streaming_outcome(options, Ok(units)).fragments == deltas(units),
        streaming_outcome(options, Ok(units)).diagnostics == Seq::<Diagnostic>::empty(),
{
    lemma_units_then(units, Seq::empty());
    assert(units + Seq::<StreamEvent>::empty() =~= units);
    assert(deltas(units) + Seq::<Seq<char>>::empty() =~= deltas(units));
}

/// A stream that the vendor closes after `units` yields exactly their deltas
/// and records no warning, whatever would have followed.
pub proof fn lemma_closed_stream_ends_quietly(
    options: CompletionOptions,
    units: Seq<StreamEvent>,
    rest: Seq<StreamEvent>,
)
    requires
        max_tokens_fits(options.max_decoding_tokens),
        forall|i: int| 0 <= i < units.len() ==> has_delta(#[trigger] units[i]),
    ensures
        streaming_outcome(options, Ok(units + seq![StreamEvent::Closed] + rest)).fragments
            == deltas(units),
        streaming_outcome(options, Ok(units + seq![StreamEvent::Closed] + rest)).fragments.len()
            == units.len(),
        streaming_outcome(options, Ok(units + seq![StreamEvent::Closed] + rest)).diagnostics
            == Seq::<Diagnostic>::empty(),
{
    let tail = seq![StreamEvent::Closed] + rest;
    lemma_units_then(units, tail);
    assert(units + seq![StreamEvent::Closed] + rest =~= units + tail);
    assert(tail[0] == StreamEvent::Closed);
    assert(deltas(units) + Seq::<Seq<char>>::empty() =~= deltas(units));
}

/// A stream that breaks off with any other error after `units` yields exactly
/// their deltas and records that one error as a warning.
pub proof fn lemma_failed_stream_truncates(
    options: CompletionOptions,
    units: Seq<StreamEvent>,
    error: String,
    rest: Seq<StreamEvent>,
)
    requires
        max_tokens_fits(options.max_decoding_tokens),
        forall|i: int| 0 <= i < units.len() ==> has_delta(#[trigger] units[i]),
    ensures
        streaming_outcome(options, Ok(units + seq![StreamEvent::Failed(error)] + rest)).fragments
            == deltas(units),
        streaming_outcome(
            options,
            Ok(units + seq![StreamEvent::Failed(error)] + rest),
        ).fragments.len() == units.len(),
        streaming_outcome(
            options,
            Ok(units + seq![StreamEvent::Failed(error)] + rest),
        ).diagnostics == seq![Diagnostic::StreamFailed(error)],
{
    let tail = seq![StreamEvent::Failed(error)] + rest;
    lemma_units_then(units, tail);
    assert(units + seq![StreamEvent::Failed(error)] + rest =~= units + tail);
    assert(tail[0] == StreamEvent::Failed(error));
    assert(deltas(units) + Seq::<Seq<char>>::empty() =~= deltas(units));
}

/// Options whose payload cannot be built give both adapters an empty
/// sequence and exactly one warning, whatever the transport would answer.
pub proof fn lemma_build_failure_degrades(
    options: CompletionOptions,
    opened: Result<Seq<StreamEvent>, String>,
    response: Result<Seq<Option<String>>, String>,
)
    requires
        !max_tokens_fits(options.max_decoding_tokens),
    ensures
        streaming_outcome(options, opened).fragments.len() == 0,
        streaming_outcome(options, opened).diagnostics.len() == 1,
        streaming_outcome(options, opened).diagnostics[0] is BuildFailed,
        single_shot_outcome(options, response).fragments.len() == 0,
        single_shot_outcome(options, response).diagnostics.len() == 1,
        single_shot_outcome(options, response).diagnostics[0] is BuildFailed,
{
}

/// A single-shot answer with exactly one choice holding `text` yields exactly
/// one fragment, equal to `text`, and no warning.
pub proof fn lemma_single_choice_is_one_fragment(options: CompletionOptions, text: String)
    requires
        max_tokens_fits(options.max_decoding_tokens),
    ensures
        single_shot_outcome(options, Ok(seq![Some(text)])).fragments == seq![text@],
        single_shot_outcome(options, Ok(seq![Some(text)])).diagnostics == Seq::<
            Diagnostic,
        >::empty(),
{
    assert(answer_spec(seq![Some(text)]) == Ok::<Seq<char>, Diagnostic>(text@));
}

/// A single-shot answer without any choice yields an empty sequence and
/// exactly one warning, the one for an empty answer.
pub proof fn lemma_no_choice_is_empty(options: CompletionOptions)
    requires
        max_tokens_fits(options.max_decoding_tokens),
    ensures
        single_shot_outcome(options, Ok(Seq::empty())).fragments == Seq::<Seq<char>>::empty(),
        single_shot_outcome(options, Ok(Seq::empty())).diagnostics == seq![
            Diagnostic::EmptyChoices,
        ],
{
}

} // verus!
