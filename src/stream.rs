use vstd::prelude::*;

use crate::outcome::{texts_of, Diagnostic, Generation, Outcome};

verus! {

/// One answer of the streaming transport, as the adapter sees it.
#[derive(Clone, Debug, PartialEq, Eq)]
pub enum StreamEvent {
    /// A response unit, with the text delta of each of its choices.
    Unit(Vec<String>),
    /// The vendor ended the stream.
    Closed,
    /// Any other transport error, with its description.
    Failed(String),
}

/// What the adapter does with one streaming event.
#[derive(Clone, Debug, PartialEq, Eq)]
pub enum StreamStep {
    /// Hand this fragment to the caller and wait for the next unit.
    Emit(String),
    /// The unit had no choice: nothing to hand over; wait for the next unit.
    Skip,
    /// End the sequence quietly.
    Stop,
    /// Record the warning, then end the sequence.
    StopWithWarning(Diagnostic),
}

/// The decision for one event.
pub open spec fn step_of(ev: StreamEvent) -> StreamStep {
    match ev {
        StreamEvent::Unit(choices) => if choices@.len() > 0 {
            StreamStep::Emit(choices@[0])
        } else {
            StreamStep::Skip
        },
        StreamEvent::Closed => StreamStep::Stop,
        StreamEvent::Failed(m) => StreamStep::StopWithWarning(Diagnostic::StreamFailed(m)),
    }
}

/// The event ends the sequence.
pub open spec fn is_terminal(ev: StreamEvent) -> bool {
    !(ev is Unit)
}

/// The fragments that a stream delivering `events` yields: the first choice's
/// text of each unit, in order, up to the first event that ends the stream.
pub open spec fn streamed(events: Seq<StreamEvent>) -> Seq<Seq<char>>
    decreases events.len(),
{
    if events.len() == 0 {
        Seq::empty()
    } else {
        match events[0] {
            StreamEvent::Unit(choices) => {
                let head = if choices@.len() > 0 {
                    seq![choices@[0]@]
                } else {
                    Seq::empty()
                };
                head + streamed(events.drop_first())
            },
            _ => Seq::empty(),
        }
    }
}

/// The warnings recorded while consuming `events`: one for an error that is
/// not the normal close, none otherwise.
pub open spec fn stream_warnings(events: Seq<StreamEvent>) -> Seq<Diagnostic>
    decreases events.len(),
{
    if events.len() == 0 {
        Seq::empty()
    } else {
        match events[0] {
            StreamEvent::Unit(_) => stream_warnings(events.drop_first()),
            StreamEvent::Closed => Seq::empty(),
            StreamEvent::Failed(m) => seq![Diagnostic::StreamFailed(m)],
        }
    }
}

/// Decides what to do with one event of the stream.
pub fn next_step(ev: &StreamEvent) -> (r: StreamStep)
    ensures
        r == step_of(*ev),
{
    match ev {
        StreamEvent::Unit(choices) => {
            if choices.len() > 0 {
                StreamStep::Emit(choices[0].clone())
            } else {
                StreamStep::Skip
            }
        },
        StreamEvent::Closed => StreamStep::Stop,
        StreamEvent::Failed(m) => StreamStep::StopWithWarning(Diagnostic::StreamFailed(m.clone())),
    }
}

/// Consumes the events of one stream in order, one at a time, and stops at
/// the first that ends it.
pub fn consume_stream(events: &Vec<StreamEvent>) -> (r: Generation)
    ensures
        r@.fragments == streamed(events@),
        r@.diagnostics == stream_warnings(events@),
{
    let mut fragments: Vec<String> = Vec::new();
    let mut i: usize = 0;
    assert(events@.skip(0) =~= events@);
    assert(texts_of(fragments@) + streamed(events@) =~= streamed(events@));
    while i < events.len()
        invariant
            i <= events@.len(),
            streamed(events@) == texts_of(fragments@) + streamed(events@.skip(i as int)),
            stream_warnings(events@) == stream_warnings(events@.skip(i as int)),
        decreases events@.len() - i,
    {
        let ghost rest = events@.skip(i as int);
        assert(rest.drop_first() =~= events@.skip(i + 1));
        match next_step(&events[i]) {
            StreamStep::Emit(text) => {
                proof {
                    assert(texts_of(fragments@.push(text)) =~= texts_of(fragments@) + seq![text@]);
                }
                fragments.push(text);
            },
            StreamStep::Skip => {
                assert(Seq::<Seq<char>>::empty() + streamed(events@.skip(i + 1)) =~= streamed(
                    events@.skip(i + 1),
                ));
            },
            StreamStep::Stop => {
                assert(texts_of(fragments@) + Seq::<Seq<char>>::empty() =~= texts_of(fragments@));
                return Generation { fragments, diagnostics: Vec::new() };
            },
            StreamStep::StopWithWarning(d) => {
                assert(texts_of(fragments@) + Seq::<Seq<char>>::empty() =~= texts_of(fragments@));
                let mut diagnostics: Vec<Diagnostic> = Vec::new();
                diagnostics.push(d);
                return Generation { fragments, diagnostics };
            },
        }
        i = i + 1;
    }
    assert(events@.skip(i as int) =~= Seq::<StreamEvent>::empty());
    assert(texts_of(fragments@) + Seq::<Seq<char>>::empty() =~= texts_of(fragments@));
    Generation { fragments, diagnostics: Vec::new() }
}

} // verus!

verus! {

/// The transport's answer to a completion request, as a sequence of events.
pub open spec fn stream_answer(opened: Result<Vec<StreamEvent>, String>) -> Result<
    Seq<StreamEvent>,
    String,
> {
    match opened {
        Ok(v) => Ok(v@),
        Err(m) => Err(m),
    }
}

/// What the caller sees once the completion request was sent: either the
/// stream that opened, consumed in order, or nothing and one warning.
pub open spec fn streaming_sent(opened: Result<Seq<StreamEvent>, String>) -> Outcome {
    match opened {
        Err(m) => Outcome {
            fragments: Seq::empty(),
            diagnostics: seq![Diagnostic::RequestFailed(m)],
        },
        Ok(events) => Outcome { fragments: streamed(events), diagnostics: stream_warnings(events) },
    }
}

/// Turns the transport's answer to a sent completion request into the
/// caller's sequence.
pub fn finish_streaming(opened: &Result<Vec<StreamEvent>, String>) -> (r: Generation)
    ensures
        r@ == streaming_sent(stream_answer(*opened)),
{
    match opened {
        Err(m) => Generation::degraded(Diagnostic::RequestFailed(m.clone())),
        Ok(events) => consume_stream(events),
    }
}

} // verus!
