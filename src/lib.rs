//! Completion adapters over two vendor HTTP APIs: a streaming completions
//! endpoint and a single-shot chat endpoint. The library builds each request
//! from plain values, decides what every transport answer means for the caller,
//! and keeps the engines' endpoint settings; the transport itself runs outside.

mod engine;
mod laws;
mod options;
mod outcome;
mod request;
mod single_shot;
mod stream;

pub use engine::{single_shot_outcome, streaming_outcome, AzureEngine, OpenAIEngine};
pub use laws::{
    deltas, first_delta, has_delta, lemma_build_failure_degrades, lemma_closed_stream_ends_quietly,
    lemma_failed_stream_truncates, lemma_no_choice_is_empty, lemma_single_choice_is_one_fragment,
    lemma_stream_keeps_order, lemma_units_then,
};
pub use options::CompletionOptions;
pub use outcome::{Diagnostic, Generation, Outcome};
pub use request::{
    build_chat_request, build_completion_request, max_tokens_fits, max_tokens_of, ChatRequest,
    CompletionRequest, RequestBuildError,
};
pub use single_shot::{answer_of, answer_spec, chat_answer, finish_single_shot, single_shot_sent};
pub use stream::{
    consume_stream, finish_streaming, next_step, step_of, stream_answer, stream_warnings, streamed,
    streaming_sent, StreamEvent, StreamStep,
};
