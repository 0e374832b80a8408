use demiarch_core::llm::client::{
    after_failed_request, calculate_backoff, embedding_model, estimate_tokens, extract_retry_after,
    fallbacks_exhausted, is_model_error, llm_backoff_with, llm_error_for_status, models_to_try,
    retry_after_in, should_try_next_model, LlmError, LlmRetryStep,
};
use demiarch_core::json::Json;
use demiarch_core::llm::openrouter::{after_rate_limit, status_outcome, LlmClientError};
use demiarch_core::llm::streaming::{
    chunk_event, classify_sse_line, has_content, split_complete_lines, SseLine, StreamChoice, StreamChunk,
    StreamDelta, StreamEvent,
};
use demiarch_core::llm::types::{
    ChatResponse, Choice, EmbeddingInput, EmbeddingRequest, FinishReason, LlmResponse, Message, MessageRole, Usage,
};

const BACKOFF_BASE_MS: u64 = 1000;

#[test]
fn types_test_message_creation() {
    let system = Message::system("You are a helpful assistant");
    assert_eq!(system.role, MessageRole::System);
    assert_eq!(system.content, "You are a helpful assistant");

    let user = Message::user("Hello!");
    assert_eq!(user.role, MessageRole::User);

    let assistant = Message::assistant("Hi there!");
    assert_eq!(assistant.role, MessageRole::Assistant);
}

#[test]
fn llm_tests_test_message_creation() {
    let system = Message::system("You are helpful");
    assert_eq!(system.role, MessageRole::System);

    let user = Message::user("Hello");
    assert_eq!(user.role, MessageRole::User);

    let assistant = Message::assistant("Hi there");
    assert_eq!(assistant.role, MessageRole::Assistant);
}

#[test]
fn test_message_role_display() {
    assert_eq!(MessageRole::System.to_string(), "system");
    assert_eq!(MessageRole::User.to_string(), "user");
    assert_eq!(MessageRole::Assistant.to_string(), "assistant");
}

#[test]
fn test_finish_reason_display() {
    assert_eq!(FinishReason::Stop.to_string(), "stop");
    assert_eq!(FinishReason::Length.to_string(), "length");
    assert_eq!(FinishReason::ToolCalls.to_string(), "tool_calls");
}

#[test]
fn finish_reasons_read_back_from_their_names() {
    assert_eq!(FinishReason::from_api_name("content_filter"), FinishReason::ContentFilter);
    assert_eq!(FinishReason::from_api_name("weird"), FinishReason::Unknown);
}

#[test]
fn test_llm_response_from_chat_response() {
    let chat_response = ChatResponse {
        id: "test".to_string(),
        object: "chat.completion".to_string(),
        created: 1234567890,
        model: "test-model".to_string(),
        choices: vec![Choice {
            index: 0,
            message: Message::assistant("Test response"),
            finish_reason: Some(FinishReason::Stop),
        }],
        usage: Some(Usage { prompt_tokens: 10, completion_tokens: 5, total_tokens: 15 }),
    };

    let llm_response = LlmResponse::from_chat_response(chat_response).unwrap();
    assert_eq!(llm_response.content, "Test response");
    assert_eq!(llm_response.model, "test-model");
    assert_eq!(llm_response.tokens_used, 15);
    assert_eq!(llm_response.input_tokens, 10);
    assert_eq!(llm_response.output_tokens, 5);
    assert_eq!(llm_response.finish_reason, FinishReason::Stop);
}

#[test]
fn llm_response_defaults_and_empty_choices() {
    let empty = ChatResponse {
        id: "x".to_string(),
        object: "chat.completion".to_string(),
        created: 0,
        model: "m".to_string(),
        choices: vec![],
        usage: None,
    };
    assert!(LlmResponse::from_chat_response(empty).is_none());

    let bare = ChatResponse {
        id: "x".to_string(),
        object: "chat.completion".to_string(),
        created: 0,
        model: "m".to_string(),
        choices: vec![Choice { index: 0, message: Message::assistant("hi"), finish_reason: None }],
        usage: None,
    };
    let r = LlmResponse::from_chat_response(bare).unwrap();
    assert_eq!(r.tokens_used, 0);
    assert_eq!(r.finish_reason, FinishReason::Unknown);
}

#[test]
fn test_embedding_request_creation() {
    let request = EmbeddingRequest::new("openai/text-embedding-3-small", "Hello, world!");

    assert_eq!(request.model, "openai/text-embedding-3-small");
    match request.input {
        EmbeddingInput::Single(text) => assert_eq!(text, "Hello, world!"),
        _ => panic!("Expected single input"),
    }
}

#[test]
fn test_embedding_batch_request() {
    let inputs = vec!["Hello".to_string(), "World".to_string()];
    let request = EmbeddingRequest::batch("openai/text-embedding-3-small", inputs);

    match request.input {
        EmbeddingInput::Batch(texts) => {
            assert_eq!(texts.len(), 2);
            assert_eq!(texts[0], "Hello");
            assert_eq!(texts[1], "World");
        }
        _ => panic!("Expected batch input"),
    }
}

#[test]
fn embedding_request_dimensions() {
    let request = EmbeddingRequest::new("m", "t").with_dimensions(256);
    assert_eq!(request.dimensions, Some(256));
    assert_eq!(embedding_model(None), "openai/text-embedding-3-small");
    assert_eq!(embedding_model(Some("x")), "x");
}

#[test]
fn test_stream_chunk_content() {
    let chunk = StreamChunk {
        id: "test".to_string(),
        object: "chat.completion.chunk".to_string(),
        created: 0,
        model: "test".to_string(),
        choices: vec![StreamChoice {
            index: 0,
            delta: StreamDelta { role: None, content: Some("Hello".to_string()) },
            finish_reason: None,
        }],
    };

    assert_eq!(chunk.content(), Some("Hello"));
    assert!(!chunk.is_done());
}

#[test]
fn final_chunk_reports_its_finish_reason() {
    let chunk = StreamChunk {
        id: "gen-123".to_string(),
        object: "chat.completion.chunk".to_string(),
        created: 1234567890,
        model: "test".to_string(),
        choices: vec![StreamChoice {
            index: 0,
            delta: StreamDelta { role: None, content: None },
            finish_reason: Some(FinishReason::Stop),
        }],
    };
    assert!(chunk.is_done());
    assert_eq!(chunk.finish_reason(), Some(&FinishReason::Stop));
}

#[test]
fn test_parse_sse_done() {
    assert_eq!(classify_sse_line("data: [DONE]"), SseLine::Done);
}

#[test]
fn test_parse_sse_empty_line() {
    assert_eq!(classify_sse_line(""), SseLine::Ignored);
    assert_eq!(classify_sse_line("   "), SseLine::Ignored);
}

#[test]
fn test_parse_sse_comment() {
    assert_eq!(classify_sse_line(": keep-alive"), SseLine::Ignored);
}

#[test]
fn sse_data_lines_carry_their_data() {
    assert_eq!(classify_sse_line("  data: {\"a\":1}  "), SseLine::Data("{\"a\":1}".to_string()));
    assert_eq!(classify_sse_line("event: ping"), SseLine::Ignored);
    match chunk_event(Err("eof".to_string())) {
        StreamEvent::Error(m) => assert_eq!(m, "Failed to parse chunk: eof"),
        other => panic!("unexpected {:?}", other),
    }
}

#[test]
fn received_text_splits_into_lines() {
    let (lines, rest) = split_complete_lines("data: a\n\ndata: b\npartial");
    assert_eq!(lines, vec!["data: a".to_string(), String::new(), "data: b".to_string()]);
    assert_eq!(rest, "partial");
    let (lines, rest) = split_complete_lines("no newline");
    assert!(lines.is_empty());
    assert_eq!(rest, "no newline");
    assert!(has_content(" x "));
    assert!(!has_content(" \t "));
}

#[test]
fn test_is_model_error() {
    assert!(is_model_error("Model not found"));
    assert!(is_model_error("The model is unavailable"));
    assert!(is_model_error("No available provider for this model"));
    assert!(!is_model_error("Invalid API key"));
    assert!(!is_model_error("Network timeout"));
}

#[test]
fn test_calculate_backoff() {
    let backoff1 = calculate_backoff(1, 0);
    assert!(backoff1 >= BACKOFF_BASE_MS);

    let backoff2 = calculate_backoff(2, 0);
    assert!(backoff2 >= BACKOFF_BASE_MS * 2);

    let backoff_with_wait = calculate_backoff(1, 5);
    assert!(backoff_with_wait >= 5000);
}

#[test]
fn backoff_uses_the_longer_wait() {
    assert_eq!(llm_backoff_with(1, 5, 0), 5000);
    assert_eq!(llm_backoff_with(1, 5, 123), 5123);
    assert_eq!(llm_backoff_with(4, 0, 900), 8000 + 900 % 800);
}

#[test]
fn test_extract_retry_after() {
    let body = r#"{"retry_after": 30}"#;
    assert_eq!(extract_retry_after(body), Some(30));

    let body = r#"{"error": {"retry_after": 60}}"#;
    assert_eq!(extract_retry_after(body), Some(60));

    let body = r#"{"message": "rate limited"}"#;
    assert_eq!(extract_retry_after(body), None);

    assert_eq!(extract_retry_after("not json"), None);
}

#[test]
fn retry_after_hint_of_parsed_documents() {
    let top = Some(Json::Object(vec![("retry_after".to_string(), Json::Number(Some(30)))]));
    assert_eq!(retry_after_in(&top), Some(30));

    let nested = Some(Json::Object(vec![
        ("retry_after".to_string(), Json::Text("soon".to_string())),
        ("error".to_string(), Json::Object(vec![("retry_after".to_string(), Json::Number(Some(45)))])),
    ]));
    assert_eq!(retry_after_in(&nested), Some(45));

    let first_wins = Some(Json::Object(vec![
        ("retry_after".to_string(), Json::Number(Some(5))),
        ("error".to_string(), Json::Object(vec![("retry_after".to_string(), Json::Number(Some(45)))])),
    ]));
    assert_eq!(retry_after_in(&first_wins), Some(5));

    let not_u64 = Some(Json::Object(vec![("retry_after".to_string(), Json::Number(None))]));
    assert_eq!(retry_after_in(&not_u64), None);
    assert_eq!(retry_after_in(&Some(Json::Array(vec![Json::Number(Some(3))]))), None);
    assert_eq!(retry_after_in(&None), None);

    // Through the parser: a fractional or negative hint is no u64.
    assert_eq!(extract_retry_after(r#"{"retry_after": 1.5}"#), None);
    assert_eq!(extract_retry_after(r#"{"retry_after": -3, "error": {"retry_after": 9}}"#), Some(9));
    assert_eq!(extract_retry_after(r#"[30]"#), None);
}

#[test]
fn llm_error_responses_by_status() {
    assert!(matches!(llm_error_for_status(429, r#"{"retry_after": 7}"#), LlmError::RateLimited(7)));
    assert!(matches!(llm_error_for_status(429, "busy"), LlmError::RateLimited(60)));
    assert!(matches!(
        llm_error_for_status(429, r#"{"error": {"retry_after": 12}}"#),
        LlmError::RateLimited(12)
    ));
    assert!(matches!(llm_error_for_status(403, "no"), LlmError::Llm(ref m) if m == "Forbidden: no"));
    assert!(matches!(
        llm_error_for_status(500, "boom"),
        LlmError::Llm(ref m) if m == "Server error (500 Internal Server Error): boom"
    ));
    assert!(matches!(llm_error_for_status(401, ""), LlmError::Llm(ref m) if m.starts_with("Unauthorized")));
}

#[test]
fn rate_limits_are_retried_twice() {
    assert!(matches!(after_failed_request(1, LlmError::RateLimited(0)), LlmRetryStep::Retry { delay_ms } if delay_ms >= 1000));
    assert!(matches!(after_failed_request(3, LlmError::RateLimited(0)), LlmRetryStep::Fail(LlmError::RateLimited(0))));
    assert!(matches!(after_failed_request(1, LlmError::Llm("x".to_string())), LlmRetryStep::Fail(_)));
}

#[test]
fn fallback_walks_the_configured_models() {
    let models = models_to_try("a", &vec!["b".to_string(), "c".to_string()]);
    assert_eq!(models, vec!["a".to_string(), "b".to_string(), "c".to_string()]);
    assert!(should_try_next_model(&LlmError::RateLimited(3)));
    assert!(should_try_next_model(&LlmError::Llm("Model is overloaded".to_string())));
    assert!(!should_try_next_model(&LlmError::Llm("Invalid API key".to_string())));
    assert!(matches!(fallbacks_exhausted(None), LlmError::NoSuitableModel(ref m) if m == "All models failed"));
}

#[test]
fn test_estimate_tokens() {
    let messages = vec![Message::system("You are a helpful assistant"), Message::user("Hello, how are you?")];
    let estimate = estimate_tokens(&messages);
    assert!(estimate > 10);
    assert!(estimate < 30);
    assert_eq!(estimate, (27 + 6 + 4 + 19 + 4 + 4) / 4);
}

#[test]
fn test_token_estimation() {
    let messages = vec![Message::system("You are a helpful assistant"), Message::user("What is 2+2?")];
    let estimate = estimate_tokens(&messages);
    assert!(estimate > 0);
    assert!(estimate < 100);
    assert_eq!(estimate_tokens(&vec![Message::user("é")]), (2 + 4 + 4) / 4);
}

#[test]
fn plain_client_statuses_and_retries() {
    assert!(status_outcome(200).is_ok());
    assert!(matches!(status_outcome(429), Err(LlmClientError::RateLimitExceeded)));
    assert!(matches!(status_outcome(503), Err(LlmClientError::ModelUnavailable)));
    match status_outcome(404) {
        Err(LlmClientError::RequestFailed(m)) => assert_eq!(m, "404 Not Found"),
        other => panic!("unexpected {:?}", other),
    }
    assert_eq!(LlmClientError::RateLimitExceeded.message(), "Rate limit exceeded");
    assert_eq!(after_rate_limit(0, 3, 1), Some(2));
    assert_eq!(after_rate_limit(1, 3, 1), Some(4));
    assert_eq!(after_rate_limit(2, 3, 1), None);
}
