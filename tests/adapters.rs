use http_api_bindings::{
    answer_of, build_chat_request, build_completion_request, consume_stream, finish_single_shot,
    finish_streaming, max_tokens_of, next_step, AzureEngine, CompletionOptions, Diagnostic,
    Generation, OpenAIEngine, RequestBuildError, StreamEvent, StreamStep,
};

fn options(max_decoding_tokens: i32, temperature: f32) -> CompletionOptions {
    CompletionOptions {
        max_decoding_tokens,
        sampling_temperature_bits: temperature.to_bits(),
    }
}

fn unit(texts: &[&str]) -> StreamEvent {
    StreamEvent::Unit(texts.iter().map(|t| t.to_string()).collect())
}

fn strings(texts: &[&str]) -> Vec<String> {
    texts.iter().map(|t| t.to_string()).collect()
}

fn openai() -> OpenAIEngine {
    OpenAIEngine::create("https://api.openai.com/v1", "gpt-3.5-turbo-instruct", None)
}

fn azure() -> AzureEngine {
    AzureEngine::create(
        "https://example.openai.azure.com",
        "2024-02-15-preview",
        "deployment",
        "gpt4",
        Some("key".to_string()),
    )
}

#[test]
fn joke_streams_in_order() {
    let engine = openai();
    let events = vec![
        unit(&["Why"]),
        unit(&[" did"]),
        unit(&[" the chicken..."]),
        StreamEvent::Closed,
    ];
    let g = engine.generate_with("Tell me a joke", &options(40, 0.1), &Ok(events));
    assert_eq!(g.fragments, strings(&["Why", " did", " the chicken..."]));
    assert!(g.diagnostics.is_empty());
}

#[test]
fn completion_request_forwards_every_field() {
    let engine = openai();
    let req = engine
        .build_request("Tell me a joke", &options(40, 0.1))
        .unwrap();
    assert_eq!(req.model, "gpt-3.5-turbo-instruct");
    assert_eq!(req.prompt, "Tell me a joke");
    assert_eq!(f32::from_bits(req.temperature_bits), 0.1);
    assert_eq!(req.max_tokens, 40);
    assert!(req.stream);
}

#[test]
fn chat_request_has_one_user_message_and_no_streaming() {
    let engine = azure();
    let req = engine
        .build_request("How does large language model work?", &options(40, 0.7))
        .unwrap();
    assert_eq!(req.model, "gpt4");
    assert_eq!(req.user_message, "How does large language model work?");
    assert_eq!(f32::from_bits(req.temperature_bits), 0.7);
    assert_eq!(req.max_tokens, 40);
    assert!(!req.stream);
}

#[test]
fn max_tokens_limits() {
    assert_eq!(max_tokens_of(0), Ok(0));
    assert_eq!(max_tokens_of(65535), Ok(65535));
    assert_eq!(
        max_tokens_of(65536),
        Err(RequestBuildError::MaxTokensOutOfRange { requested: 65536 })
    );
    assert_eq!(
        max_tokens_of(-1),
        Err(RequestBuildError::MaxTokensOutOfRange { requested: -1 })
    );
}

#[test]
fn out_of_range_tokens_fail_both_builds() {
    let o = options(70000, 0.1);
    let e = RequestBuildError::MaxTokensOutOfRange { requested: 70000 };
    assert_eq!(build_completion_request("m", "p", &o), Err(e));
    assert_eq!(build_chat_request("m", "p", &o), Err(e));
}

#[test]
fn build_failure_gives_empty_sequence_and_one_warning() {
    let o = options(-5, 0.1);
    let expected = Generation {
        fragments: vec![],
        diagnostics: vec![Diagnostic::BuildFailed(
            RequestBuildError::MaxTokensOutOfRange { requested: -5 },
        )],
    };
    let streamed = openai().generate_with("p", &o, &Ok(vec![unit(&["a"]), StreamEvent::Closed]));
    assert_eq!(streamed, expected);
    let single = azure().generate_with("p", &o, &Ok(vec![Some("answer".to_string())]));
    assert_eq!(single, expected);
}

#[test]
fn units_arrive_in_order_for_any_count() {
    let engine = openai();
    let none = engine.generate_with("p", &options(40, 0.1), &Ok(vec![]));
    assert!(none.fragments.is_empty());
    assert!(none.diagnostics.is_empty());
    let texts = ["a", "b", "c", "d", "e"];
    let events: Vec<StreamEvent> = texts.iter().map(|t| unit(&[t])).collect();
    let g = engine.generate_with("p", &options(40, 0.1), &Ok(events));
    assert_eq!(g.fragments, strings(&texts));
    assert!(g.diagnostics.is_empty());
}

#[test]
fn only_first_choice_of_a_unit_is_emitted() {
    let g = consume_stream(&vec![unit(&["x", "y"]), unit(&["z"])]);
    assert_eq!(g.fragments, strings(&["x", "z"]));
}

#[test]
fn unit_without_choice_is_skipped() {
    let g = consume_stream(&vec![unit(&["x"]), unit(&[]), unit(&["z"])]);
    assert_eq!(g.fragments, strings(&["x", "z"]));
    assert!(g.diagnostics.is_empty());
}

#[test]
fn closed_stream_stops_without_warning() {
    let g = consume_stream(&vec![
        unit(&["one"]),
        unit(&["two"]),
        StreamEvent::Closed,
        unit(&["late"]),
    ]);
    assert_eq!(g.fragments, strings(&["one", "two"]));
    assert!(g.diagnostics.is_empty());
}

#[test]
fn other_error_truncates_with_one_warning() {
    let g = consume_stream(&vec![
        unit(&["one"]),
        unit(&["two"]),
        unit(&["three"]),
        StreamEvent::Failed("connection reset".to_string()),
        unit(&["late"]),
    ]);
    assert_eq!(g.fragments, strings(&["one", "two", "three"]));
    assert_eq!(
        g.diagnostics,
        vec![Diagnostic::StreamFailed("connection reset".to_string())]
    );
}

#[test]
fn failed_send_gives_one_warning() {
    let g = finish_streaming(&Err("refused".to_string()));
    assert!(g.fragments.is_empty());
    assert_eq!(g.diagnostics, vec![Diagnostic::RequestFailed("refused".to_string())]);
    let g = finish_single_shot(&Err("timeout".to_string()));
    assert!(g.fragments.is_empty());
    assert_eq!(g.diagnostics, vec![Diagnostic::RequestFailed("timeout".to_string())]);
}

#[test]
fn next_step_for_each_event() {
    assert_eq!(next_step(&unit(&["a", "b"])), StreamStep::Emit("a".to_string()));
    assert_eq!(next_step(&unit(&[])), StreamStep::Skip);
    assert_eq!(next_step(&StreamEvent::Closed), StreamStep::Stop);
    assert_eq!(
        next_step(&StreamEvent::Failed("e".to_string())),
        StreamStep::StopWithWarning(Diagnostic::StreamFailed("e".to_string()))
    );
}

#[test]
fn single_choice_is_one_fragment() {
    let g = azure().generate_with(
        "How does large language model work?",
        &options(40, 0.1),
        &Ok(vec![Some("It predicts the next token.".to_string())]),
    );
    assert_eq!(g.fragments, strings(&["It predicts the next token."]));
    assert!(g.diagnostics.is_empty());
}

#[test]
fn first_of_several_choices_is_the_answer() {
    let g = finish_single_shot(&Ok(vec![Some("first".to_string()), Some("second".to_string())]));
    assert_eq!(g.fragments, strings(&["first"]));
}

#[test]
fn zero_choices_give_empty_sequence_and_warning() {
    let g = azure().generate_with("p", &options(40, 0.1), &Ok(vec![]));
    assert!(g.fragments.is_empty());
    assert_eq!(g.diagnostics, vec![Diagnostic::EmptyChoices]);
}

#[test]
fn choice_without_content_gives_warning() {
    assert_eq!(answer_of(&vec![None]), Err(Diagnostic::MissingContent));
    let g = finish_single_shot(&Ok(vec![None, Some("later".to_string())]));
    assert!(g.fragments.is_empty());
    assert_eq!(g.diagnostics, vec![Diagnostic::MissingContent]);
}

#[test]
fn interleaved_calls_on_one_engine_stay_apart() {
    let engine = openai();
    let shared = &engine;
    let o = options(40, 0.1);
    let mut results = Vec::new();
    for call in 0..4 {
        let events: Vec<StreamEvent> = (0..call + 2)
            .map(|i| unit(&[&format!("c{call}-{i}")]))
            .chain(std::iter::once(StreamEvent::Closed))
            .collect();
        results.push((call, shared.generate_with("p", &o, &Ok(events))));
    }
    for (call, g) in results {
        let expected: Vec<String> = (0..call + 2).map(|i| format!("c{call}-{i}")).collect();
        assert_eq!(g.fragments, expected);
        assert!(g.diagnostics.is_empty());
    }
}
