use vstd::prelude::*;

use crate::request::RequestBuildError;

verus! {

/// A warning that an adapter hands to its diagnostics collaborator. None of
/// them reaches the caller as an error: the caller only sees fewer fragments.
#[derive(Clone, Debug, PartialEq, Eq)]
pub enum Diagnostic {
    /// The request payload could not be built; nothing was sent.
    BuildFailed(RequestBuildError),
    /// Sending the request failed, with the transport's description.
    RequestFailed(String),
    /// The stream broke off with an error other than its normal close.
    StreamFailed(String),
    /// The single-shot answer came back without any choice.
    EmptyChoices,
    /// The single-shot answer's first choice carried no message text.
    MissingContent,
}

/// What one call to `generate` produced: the fragments in emission order and
/// the warnings recorded on the way.
#[derive(Clone, Debug, PartialEq, Eq)]
pub struct Generation {
    pub fragments: Vec<String>,
    pub diagnostics: Vec<Diagnostic>,
}

/// The mathematical value of a `Generation`.
pub struct Outcome {
    pub fragments: Seq<Seq<char>>,
    pub diagnostics: Seq<Diagnostic>,
}

pub open spec fn texts_of(v: Seq<String>) -> Seq<Seq<char>> {
    v.map_values(|s: String| s@)
}

impl View for Generation {
    type V = Outcome;

    open spec fn view(&self) -> Outcome {
        Outcome { fragments: texts_of(self.fragments@), diagnostics: self.diagnostics@ }
    }
}

impl Generation {
    /// The sequence that ends before its first fragment, with one warning.
    pub fn degraded(d: Diagnostic) -> (r: Generation)
        ensures
            r@.fragments == Seq::<Seq<char>>::empty(),
            r@.diagnostics == seq![d],
    {
        let mut diagnostics: Vec<Diagnostic> = Vec::new();
        diagnostics.push(d);
        proof {
            assert(texts_of(Seq::<String>::empty()) =~= Seq::<Seq<char>>::empty());
        }
        Generation { fragments: Vec::new(), diagnostics }
    }
}

} // verus!
