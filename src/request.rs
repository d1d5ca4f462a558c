use vstd::prelude::*;

use crate::options::CompletionOptions;

verus! {

/// Why a request payload could not be built. No request is sent after one.
#[derive(Clone, Copy, Debug, PartialEq, Eq)]
pub enum RequestBuildError {
    /// The vendor field for the output length is a `u16`; a count outside that
    /// range cannot be forwarded as it is.
    MaxTokensOutOfRange { requested: i32 },
}

/// The token count can be forwarded to the vendor verbatim.
pub open spec fn max_tokens_fits(n: i32) -> bool {
    0 <= n <= u16::MAX
}

/// The vendor's output-length field for a requested count: the same number,
/// or an error where it does not fit.
pub fn max_tokens_of(n: i32) -> (r: Result<u16, RequestBuildError>)
    ensures
        r is Ok <==> max_tokens_fits(n),
        r matches Ok(v) ==> v as int == n as int,
        r matches Err(e) ==> e == (RequestBuildError::MaxTokensOutOfRange { requested: n }),
{
    if 0 <= n && n <= 65535 {
        Ok(n as u16)
    } else {
        Err(RequestBuildError::MaxTokensOutOfRange { requested: n })
    }
}

/// A streaming completion request, as the completions endpoint takes it.
#[derive(Clone, Debug, PartialEq, Eq)]
pub struct CompletionRequest {
    pub model: String,
    pub prompt: String,
    pub temperature_bits: u32,
    pub max_tokens: u16,
    pub stream: bool,
}

/// A chat request with a single user message, as the chat endpoint takes it.
#[derive(Clone, Debug, PartialEq, Eq)]
pub struct ChatRequest {
    pub model: String,
    pub user_message: String,
    pub temperature_bits: u32,
    pub max_tokens: u16,
    pub stream: bool,
}

/// Builds the streaming completion request for `prompt` on `model`.
pub fn build_completion_request(model: &str, prompt: &str, options: &CompletionOptions) -> (r:
    Result<CompletionRequest, RequestBuildError>)
    ensures
        r is Ok <==> max_tokens_fits(options.max_decoding_tokens),
        r matches Ok(req) ==> {
            &&& req.model@ == model@
            &&& req.prompt@ == prompt@
            &&& req.temperature_bits == options.sampling_temperature_bits
            &&& req.max_tokens as int == options.max_decoding_tokens as int
            &&& req.stream
        },
        r matches Err(e) ==> e == (RequestBuildError::MaxTokensOutOfRange {
            requested: options.max_decoding_tokens,
        }),
{
    let max_tokens = match max_tokens_of(options.max_decoding_tokens) {
        Ok(v) => v,
        Err(e) => {
            return Err(e);
        },
    };
    Ok(
        CompletionRequest {
            model: model.to_owned(),
            prompt: prompt.to_owned(),
            temperature_bits: options.sampling_temperature_bits,
            max_tokens,
            stream: true,
        },
    )
}

/// Builds the single-shot chat request for `prompt` on `model`: one user
/// message, no streaming.
pub fn build_chat_request(model: &str, prompt: &str, options: &CompletionOptions) -> (r: Result<
    ChatRequest,
    RequestBuildError,
>)
    ensures
        r is Ok <==> max_tokens_fits(options.max_decoding_tokens),
        r matches Ok(req) ==> {
            &&& req.model@ == model@
            &&& req.user_message@ == prompt@
            &&& req.temperature_bits == options.sampling_temperature_bits
            &&& req.max_tokens as int == options.max_decoding_tokens as int
            &&& !req.stream
        },
        r matches Err(e) ==> e == (RequestBuildError::MaxTokensOutOfRange {
            requested: options.max_decoding_tokens,
        }),
{
    let max_tokens = match max_tokens_of(options.max_decoding_tokens) {
        Ok(v) => v,
        Err(e) => {
            return Err(e);
        },
    };
    Ok(
        ChatRequest {
            model: model.to_owned(),
            user_message: prompt.to_owned(),
            temperature_bits: options.sampling_temperature_bits,
            max_tokens,
            stream: false,
        },
    )
}

} // verus!
