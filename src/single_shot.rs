use vstd::prelude::*;

use crate::outcome::{texts_of, Diagnostic, Generation, Outcome};

verus! {

/// The answer that a complete chat response stands for, given the message
/// text of each of its choices: the first choice's text, or the warning that
/// replaces it.
pub open spec fn answer_spec(choices: Seq<Option<String>>) -> Result<Seq<char>, Diagnostic> {
    if choices.len() == 0 {
        Err(Diagnostic::EmptyChoices)
    } else {
        match choices[0] {
            Some(text) => Ok(text@),
            None => Err(Diagnostic::MissingContent),
        }
    }
}

/// The transport's answer to a chat request, as a sequence of choices.
pub open spec fn chat_answer(response: Result<Vec<Option<String>>, String>) -> Result<
    Seq<Option<String>>,
    String,
> {
    match response {
        Ok(v) => Ok(v@),
        Err(m) => Err(m),
    }
}

/// What the caller sees once the chat request was sent and `response` came
/// back: one fragment, or none and one warning.
pub open spec fn single_shot_sent(response: Result<Seq<Option<String>>, String>) -> Outcome {
    match response {
        Err(m) => Outcome {
            fragments: Seq::empty(),
            diagnostics: seq![Diagnostic::RequestFailed(m)],
        },
        Ok(choices) => match answer_spec(choices) {
            Ok(text) => Outcome { fragments: seq![text], diagnostics: Seq::empty() },
            Err(d) => Outcome { fragments: Seq::empty(), diagnostics: seq![d] },
        },
    }
}

/// Picks the answer out of a complete chat response.
pub fn answer_of(choices: &Vec<Option<String>>) -> (r: Result<String, Diagnostic>)
    ensures
        r matches Ok(s) ==> answer_spec(choices@) == Ok::<Seq<char>, Diagnostic>(s@),
        r matches Err(d) ==> answer_spec(choices@) == Err::<Seq<char>, Diagnostic>(d),
{
    if choices.len() == 0 {
        return Err(Diagnostic::EmptyChoices);
    }
    match &choices[0] {
        Some(text) => Ok(text.clone()),
        None => Err(Diagnostic::MissingContent),
    }
}

/// Turns the transport's answer to a sent chat request into the caller's
/// sequence: the whole answer arrives as one fragment.
pub fn finish_single_shot(response: &Result<Vec<Option<String>>, String>) -> (r: Generation)
    ensures
        r@ == single_shot_sent(chat_answer(*response)),
{
    match response {
        Err(m) => Generation::degraded(Diagnostic::RequestFailed(m.clone())),
        Ok(choices) => match answer_of(choices) {
            Ok(text) => {
                let mut fragments: Vec<String> = Vec::new();
                fragments.push(text);
                proof {
                    assert(texts_of(fragments@) =~= seq![text@]);
                    assert(texts_of(Seq::<String>::empty()) =~= Seq::<Seq<char>>::empty());
                }
                Generation { fragments, diagnostics: Vec::new() }
            },
            Err(d) => Generation::degraded(d),
        },
    }
}

} // verus!
