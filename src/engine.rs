use vstd::prelude::*;

use async_openai::config::{AzureConfig, OpenAIConfig};

use crate::options::CompletionOptions;
use crate::outcome::{Diagnostic, Generation, Outcome};
use crate::request::{
    build_chat_request, build_completion_request, max_tokens_fits, ChatRequest, CompletionRequest,
    RequestBuildError,
};
use crate::single_shot::{chat_answer, finish_single_shot, single_shot_sent};
use crate::stream::{finish_streaming, stream_answer, streaming_sent, StreamEvent};

verus! {

/// async-openai's settings for the OpenAI endpoint: base URL and key.
#[verifier::external_type_specification]
#[verifier::external_body]
pub struct ExOpenAIConfig(OpenAIConfig);

/// async-openai's settings for an Azure deployment: base URL, API version,
/// deployment and key.
#[verifier::external_type_specification]
#[verifier::external_body]
pub struct ExAzureConfig(AzureConfig);

/// Relies on async_openai::config::OpenAIConfig::new, the default settings.
pub assume_specification[ OpenAIConfig::new ]() -> OpenAIConfig;

/// Relies on OpenAIConfig::with_api_base, which replaces the base URL.
pub assume_specification<S: Into<String>>[ OpenAIConfig::with_api_base::<S> ](
    config: OpenAIConfig,
    api_base: S,
) -> OpenAIConfig;

/// Relies on OpenAIConfig::with_api_key, which replaces the key.
pub assume_specification<S: Into<String>>[ OpenAIConfig::with_api_key::<S> ](
    config: OpenAIConfig,
    api_key: S,
) -> OpenAIConfig;

/// Relies on async_openai::config::AzureConfig::new, the default settings.
pub assume_specification[ AzureConfig::new ]() -> AzureConfig;

/// Relies on AzureConfig::with_api_base, which replaces the base URL.
pub assume_specification<S: Into<String>>[ AzureConfig::with_api_base::<S> ](
    config: AzureConfig,
    api_base: S,
) -> AzureConfig;

/// Relies on AzureConfig::with_api_version, which replaces the API version.
pub assume_specification<S: Into<String>>[ AzureConfig::with_api_version::<S> ](
    config: AzureConfig,
    api_version: S,
) -> AzureConfig;

/// Relies on AzureConfig::with_deployment_id, which replaces the deployment.
pub assume_specification<S: Into<String>>[ AzureConfig::with_deployment_id::<S> ](
    config: AzureConfig,
    deployment_id: S,
) -> AzureConfig;

/// Relies on AzureConfig::with_api_key, which replaces the key.
pub assume_specification<S: Into<String>>[ AzureConfig::with_api_key::<S> ](
    config: AzureConfig,
    api_key: S,
) -> AzureConfig;

/// The key to send: the one given, or the empty key.
fn key_or_empty(api_key: Option<String>) -> (r: String)
    ensures
        r@ == match api_key {
            Some(k) => k@,
            None => Seq::<char>::empty(),
        },
{
    match api_key {
        Some(k) => k,
        None => String::new(),
    }
}

/// Everything the streaming adapter's caller sees for one call, given what
/// the transport answered to the request.
pub open spec fn streaming_outcome(
    options: CompletionOptions,
    opened: Result<Seq<StreamEvent>, String>,
) -> Outcome {
    if max_tokens_fits(options.max_decoding_tokens) {
        streaming_sent(opened)
    } else {
        Outcome {
            fragments: Seq::empty(),
            diagnostics: seq![
                Diagnostic::BuildFailed(
                    RequestBuildError::MaxTokensOutOfRange {
                        requested: options.max_decoding_tokens,
                    },
                ),
            ],
        }
    }
}

/// Everything the single-shot adapter's caller sees for one call, given what
/// the transport answered to the request.
pub open spec fn single_shot_outcome(
    options: CompletionOptions,
    response: Result<Seq<Option<String>>, String>,
) -> Outcome {
    if max_tokens_fits(options.max_decoding_tokens) {
        single_shot_sent(response)
    } else {
        Outcome {
            fragments: Seq::empty(),
            diagnostics: seq![
                Diagnostic::BuildFailed(
                    RequestBuildError::MaxTokensOutOfRange {
                        requested: options.max_decoding_tokens,
                    },
                ),
            ],
        }
    }
}

/// The adapter for the streaming completions endpoint.
pub struct OpenAIEngine {
    config: OpenAIConfig,
    model_name: String,
}

impl OpenAIEngine {
    /// The model that every request of this engine names.
    pub closed spec fn model_name(&self) -> Seq<char> {
        self.model_name@
    }

    pub fn create(api_endpoint: &str, model_name: &str, api_key: Option<String>) -> (r: Self)
        ensures
            r.model_name() == model_name@,
    {
        let config = OpenAIConfig::new().with_api_base(api_endpoint).with_api_key(
            key_or_empty(api_key),
        );
        OpenAIEngine { config, model_name: model_name.to_owned() }
    }

    /// The endpoint settings that the transport sends this engine's requests
    /// with.
    pub fn config(&self) -> &OpenAIConfig {
        &self.config
    }

    /// The request for one call; an error means that nothing may be sent.
    pub fn build_request(&self, prompt: &str, options: &CompletionOptions) -> (r: Result<
        CompletionRequest,
        RequestBuildError,
    >)
        ensures
            r is Ok <==> max_tokens_fits(options.max_decoding_tokens),
            r matches Ok(req) ==> {
                &&& req.model@ == self.model_name()
                &&& req.prompt@ == prompt@
                &&& req.temperature_bits == options.sampling_temperature_bits
                &&& req.max_tokens as int == options.max_decoding_tokens as int
                &&& req.stream
            },
            r matches Err(e) ==> e == (RequestBuildError::MaxTokensOutOfRange {
                requested: options.max_decoding_tokens,
            }),
    {
        build_completion_request(self.model_name.as_str(), prompt, options)
    }

    /// One call of `generate`, where `opened` is what the transport answered
    /// to the request: the units of the stream it opened, or its error. The
    /// transport is consulted only where the request was built.
    pub fn generate_with(
        &self,
        prompt: &str,
        options: &CompletionOptions,
        opened: &Result<Vec<StreamEvent>, String>,
    ) -> (r: Generation)
        ensures
            r@ == streaming_outcome(*options, stream_answer(*opened)),
    {
        match self.build_request(prompt, options) {
            Err(e) => Generation::degraded(Diagnostic::BuildFailed(e)),
            Ok(_) => finish_streaming(opened),
        }
    }
}

/// The adapter for the single-shot chat endpoint of an Azure deployment.
pub struct AzureEngine {
    config: AzureConfig,
    model_name: String,
}

impl AzureEngine {
    /// The model that every request of this engine names.
    pub closed spec fn model_name(&self) -> Seq<char> {
        self.model_name@
    }

    pub fn create(
        api_endpoint: &str,
        api_version: &str,
        deployment_id: &str,
        model_name: &str,
        api_key: Option<String>,
    ) -> (r: Self)
        ensures
            r.model_name() == model_name@,
    {
        let config = AzureConfig::new().with_api_base(api_endpoint).with_api_version(
            api_version,
        ).with_deployment_id(deployment_id).with_api_key(key_or_empty(api_key));
        AzureEngine { config, model_name: model_name.to_owned() }
    }

    /// The endpoint settings that the transport sends this engine's requests
    /// with.
    pub fn config(&self) -> &AzureConfig {
        &self.config
    }

    /// The request for one call; an error means that nothing may be sent.
    pub fn build_request(&self, prompt: &str, options: &CompletionOptions) -> (r: Result<
        ChatRequest,
        RequestBuildError,
    >)
        ensures
            r is Ok <==> max_tokens_fits(options.max_decoding_tokens),
            r matches Ok(req) ==> {
                &&& req.model@ == self.model_name()
                &&& req.user_message@ == prompt@
                &&& req.temperature_bits == options.sampling_temperature_bits
                &&& req.max_tokens as int == options.max_decoding_tokens as int
                &&& !req.stream
            },
            r matches Err(e) ==> e == (RequestBuildError::MaxTokensOutOfRange {
                requested: options.max_decoding_tokens,
            }),
    {
        build_chat_request(self.model_name.as_str(), prompt, options)
    }

    /// One call of `generate`, where `response` is what the transport answered
    /// to the request: the message text of each choice, or its error. The
    /// transport is consulted only where the request was built.
    pub fn generate_with(
        &self,
        prompt: &str,
        options: &CompletionOptions,
        response: &Result<Vec<Option<String>>, String>,
    ) -> (r: Generation)
        ensures
            r@ == single_shot_outcome(*options, chat_answer(*response)),
    {
        match self.build_request(prompt, options) {
            Err(e) => Generation::degraded(Diagnostic::BuildFailed(e)),
            Ok(_) => finish_single_shot(response),
        }
    }
}

} // verus!
