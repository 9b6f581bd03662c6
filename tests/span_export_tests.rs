use openinference::{
    record_error, record_output_message, record_token_usage, AttributeValue, ChainSpanBuilder,
    EmbeddingSpanBuilder, Float64, LlmSpanBuilder, RetrieverSpanBuilder, SpanRecord,
    ToolSpanBuilder, TraceConfig,
};

fn float(x: f64) -> Float64 {
    Float64::from_bits(x.to_bits())
}

fn assert_string_attribute(span: &SpanRecord, key: &str, expected: &str) {
    match span.get(key) {
        Some(AttributeValue::Str(s)) => assert_eq!(
            s.as_str(),
            expected,
            "attribute '{}' expected '{}', got '{}'",
            key,
            expected,
            s
        ),
        other => panic!(
            "attribute '{}' expected String('{}'), got {:?}; attributes: {:?}",
            key,
            expected,
            other,
            span.attributes()
        ),
    }
}

fn assert_i64_attribute(span: &SpanRecord, key: &str, expected: i64) {
    match span.get(key) {
        Some(AttributeValue::Int(v)) => assert_eq!(*v, expected, "attribute '{}'", key),
        other => panic!("attribute '{}' expected I64({}), got {:?}", key, expected, other),
    }
}

fn assert_f64_attribute(span: &SpanRecord, key: &str, expected: f64) {
    match span.get(key) {
        Some(AttributeValue::Float(v)) => {
            let got = f64::from_bits(v.to_bits());
            assert!(
                (got - expected).abs() < f64::EPSILON,
                "attribute '{}' expected {}, got {}",
                key,
                expected,
                got
            );
        }
        other => panic!("attribute '{}' expected F64({}), got {:?}", key, expected, other),
    }
}

fn assert_no_attribute(span: &SpanRecord, key: &str) {
    if let Some(val) = span.get(key) {
        panic!("attribute '{}' should NOT be present in span, but found {:?}", key, val);
    }
}

#[test]
fn test_llm_span_attributes() {
    let span = LlmSpanBuilder::new("gpt-4")
        .provider("openai")
        .system("openai")
        .temperature(float(0.7))
        .top_p(float(0.9))
        .max_tokens(1000)
        .frequency_penalty(float(0.5))
        .presence_penalty(float(0.3))
        .build();

    assert_string_attribute(&span, "openinference.span.kind", "LLM");
    assert_string_attribute(&span, "llm.model_name", "gpt-4");
    assert_string_attribute(&span, "llm.provider", "openai");
    assert_string_attribute(&span, "llm.system", "openai");

    assert_string_attribute(&span, "gen_ai.request.model", "gpt-4");
    assert_string_attribute(&span, "gen_ai.provider.name", "openai");
    assert_string_attribute(&span, "gen_ai.system", "openai");
    assert_f64_attribute(&span, "gen_ai.request.temperature", 0.7);
    assert_f64_attribute(&span, "gen_ai.request.top_p", 0.9);
    assert_i64_attribute(&span, "gen_ai.request.max_tokens", 1000);
    assert_f64_attribute(&span, "gen_ai.request.frequency_penalty", 0.5);
    assert_f64_attribute(&span, "gen_ai.request.presence_penalty", 0.3);
}

#[test]
fn test_llm_input_messages() {
    let config = TraceConfig::default();

    let span = LlmSpanBuilder::new("gpt-4")
        .config(config)
        .input_message("system", "You are a helpful assistant.")
        .input_message("user", "Hello!")
        .build();

    assert_string_attribute(&span, "openinference.span.kind", "LLM");
    assert_string_attribute(&span, "llm.model_name", "gpt-4");

    assert_string_attribute(&span, "llm.input_messages.0.message.role", "system");
    assert_string_attribute(
        &span,
        "llm.input_messages.0.message.content",
        "You are a helpful assistant.",
    );
    assert_string_attribute(&span, "llm.input_messages.1.message.role", "user");
    assert_string_attribute(&span, "llm.input_messages.1.message.content", "Hello!");
}

#[test]
fn test_token_usage_recording() {
    let mut span = LlmSpanBuilder::new("gpt-4").build();
    record_token_usage(&mut span, 100, 50);

    assert_string_attribute(&span, "openinference.span.kind", "LLM");

    assert_i64_attribute(&span, "llm.token_count.prompt", 100);
    assert_i64_attribute(&span, "llm.token_count.completion", 50);
    assert_i64_attribute(&span, "llm.token_count.total", 150);
    assert_i64_attribute(&span, "gen_ai.usage.input_tokens", 100);
    assert_i64_attribute(&span, "gen_ai.usage.output_tokens", 50);
}

#[test]
fn test_privacy_hides_content() {
    let config = TraceConfig::builder().hide_inputs(true).build();

    let span = ChainSpanBuilder::new("private_chain")
        .config(config)
        .input("this is sensitive input")
        .build();

    assert_string_attribute(&span, "openinference.span.kind", "CHAIN");
    assert_string_attribute(&span, "input.value", "__REDACTED__");
}

#[test]
fn test_privacy_shows_content_when_not_hidden() {
    let config = TraceConfig::default();

    let span = ChainSpanBuilder::new("public_chain")
        .config(config)
        .input("this is public input")
        .build();

    assert_string_attribute(&span, "openinference.span.kind", "CHAIN");
    assert_string_attribute(&span, "input.value", "this is public input");
}

#[test]
fn test_embedding_span_attributes() {
    let span = EmbeddingSpanBuilder::new("text-embedding-ada-002")
        .text("Hello, world!")
        .build();

    assert_string_attribute(&span, "openinference.span.kind", "EMBEDDING");
    assert_string_attribute(&span, "embedding.model_name", "text-embedding-ada-002");
}

#[test]
fn test_chain_span_attributes() {
    let config = TraceConfig::default();

    let span = ChainSpanBuilder::new("rag_pipeline")
        .config(config)
        .input("What is Rust?")
        .input_mime_type("text/plain")
        .build();

    assert_string_attribute(&span, "openinference.span.kind", "CHAIN");
    assert_string_attribute(&span, "input.value", "What is Rust?");
    assert_string_attribute(&span, "input.mime_type", "text/plain");
}

#[test]
fn test_tool_span_attributes() {
    let span = ToolSpanBuilder::new("calculator")
        .description("Performs arithmetic calculations")
        .parameters(r#"{"operation": "add", "a": 1, "b": 2}"#)
        .build();

    assert_string_attribute(&span, "openinference.span.kind", "TOOL");
    assert_string_attribute(&span, "tool.name", "calculator");
    assert_string_attribute(&span, "tool.description", "Performs arithmetic calculations");
    assert_string_attribute(
        &span,
        "tool.parameters",
        r#"{"operation": "add", "a": 1, "b": 2}"#,
    );
}

#[test]
fn test_retriever_span_attributes() {
    let config = TraceConfig::default();

    let span = RetrieverSpanBuilder::new("vector_search")
        .config(config)
        .query("What is the capital of France?")
        .build();

    assert_string_attribute(&span, "openinference.span.kind", "RETRIEVER");
    assert_string_attribute(&span, "input.value", "What is the capital of France?");
}

#[test]
fn test_retriever_privacy_hides_query() {
    let config = TraceConfig::builder().hide_inputs(true).build();

    let span = RetrieverSpanBuilder::new("vector_search")
        .config(config)
        .query("sensitive query")
        .build();

    assert_string_attribute(&span, "openinference.span.kind", "RETRIEVER");
    assert_string_attribute(&span, "input.value", "__REDACTED__");
}

#[test]
fn test_dual_attribute_emission_enabled() {
    let config = TraceConfig::builder().emit_gen_ai_attributes(true).build();

    let span = LlmSpanBuilder::new("gpt-4")
        .config(config)
        .provider("openai")
        .temperature(float(0.7))
        .build();

    assert_string_attribute(&span, "openinference.span.kind", "LLM");
    assert_string_attribute(&span, "llm.model_name", "gpt-4");
    assert_string_attribute(&span, "llm.provider", "openai");

    assert_string_attribute(&span, "gen_ai.request.model", "gpt-4");
    assert_string_attribute(&span, "gen_ai.provider.name", "openai");
    assert_f64_attribute(&span, "gen_ai.request.temperature", 0.7);
}

#[test]
fn test_dual_attribute_emission_disabled() {
    let config = TraceConfig::builder().emit_gen_ai_attributes(false).build();

    let span = LlmSpanBuilder::new("gpt-4")
        .config(config)
        .provider("openai")
        .temperature(float(0.7))
        .build();

    assert_string_attribute(&span, "openinference.span.kind", "LLM");
    assert_string_attribute(&span, "llm.model_name", "gpt-4");
    assert_string_attribute(&span, "llm.provider", "openai");

    assert_no_attribute(&span, "gen_ai.request.model");
    assert_no_attribute(&span, "gen_ai.provider.name");
    assert_no_attribute(&span, "gen_ai.system");
    assert_no_attribute(&span, "gen_ai.request.temperature");
    assert_no_attribute(&span, "gen_ai.request.top_p");
    assert_no_attribute(&span, "gen_ai.request.max_tokens");
    assert_no_attribute(&span, "gen_ai.request.frequency_penalty");
    assert_no_attribute(&span, "gen_ai.request.presence_penalty");
}

#[test]
fn test_llm_span_name_format() {
    let span = LlmSpanBuilder::new("gpt-4").build();
    assert_eq!(span.name(), "llm gpt-4");
}

#[test]
fn test_embedding_span_name_format() {
    let span = EmbeddingSpanBuilder::new("ada-002").build();
    assert_eq!(span.name(), "embedding ada-002");
}

#[test]
fn test_tool_span_name_format() {
    let span = ToolSpanBuilder::new("calculator").build();
    assert_eq!(span.name(), "tool calculator");
}

#[test]
fn test_retriever_span_name_format() {
    let span = RetrieverSpanBuilder::new("pinecone").build();
    assert_eq!(span.name(), "retriever pinecone");
}

#[test]
fn test_llm_span_with_invocation_parameters() {
    let span = LlmSpanBuilder::new("mistral-large")
        .provider("anthropic")
        .invocation_parameters(r#"{"stream": true, "max_tokens": 4096}"#)
        .build();

    assert_string_attribute(&span, "openinference.span.kind", "LLM");
    assert_string_attribute(&span, "llm.model_name", "mistral-large");
    assert_string_attribute(&span, "llm.provider", "anthropic");
    assert_string_attribute(
        &span,
        "llm.invocation_parameters",
        r#"{"stream": true, "max_tokens": 4096}"#,
    );
}

#[test]
fn test_chain_hide_inputs_hides_mime_type() {
    let config = TraceConfig::builder().hide_inputs(true).build();

    let span = ChainSpanBuilder::new("pipeline")
        .config(config)
        .input("sensitive data")
        .input_mime_type("application/json")
        .build();

    assert_string_attribute(&span, "openinference.span.kind", "CHAIN");
    // The value is redacted; the MIME type is metadata and stays.
    assert_string_attribute(&span, "input.value", "__REDACTED__");
    assert_string_attribute(&span, "input.mime_type", "application/json");
}

#[test]
fn test_llm_input_messages_hidden() {
    let config = TraceConfig::builder().hide_input_messages(true).build();

    let span = LlmSpanBuilder::new("gpt-4")
        .config(config)
        .input_message("system", "Secret system prompt")
        .input_message("user", "Secret user message")
        .build();

    assert_string_attribute(&span, "llm.input_messages.0.message.role", "__REDACTED__");
    assert_string_attribute(&span, "llm.input_messages.0.message.content", "__REDACTED__");
    assert_string_attribute(&span, "llm.input_messages.1.message.role", "__REDACTED__");
    assert_string_attribute(&span, "llm.input_messages.1.message.content", "__REDACTED__");
}

#[test]
fn test_llm_input_text_hidden_but_role_visible() {
    let config = TraceConfig::builder().hide_input_text(true).build();

    let span = LlmSpanBuilder::new("gpt-4")
        .config(config)
        .input_message("system", "Secret content")
        .build();

    assert_string_attribute(&span, "llm.input_messages.0.message.role", "system");
    assert_string_attribute(&span, "llm.input_messages.0.message.content", "__REDACTED__");
}

#[test]
fn test_record_output_message() {
    let config = TraceConfig::default();

    let mut span = LlmSpanBuilder::new("gpt-4").build();
    record_output_message(&mut span, 0, "assistant", "Hello! How can I help?", &config);

    assert_string_attribute(&span, "llm.output_messages.0.message.role", "assistant");
    assert_string_attribute(
        &span,
        "llm.output_messages.0.message.content",
        "Hello! How can I help?",
    );
}

#[test]
fn test_record_output_message_hidden() {
    let config = TraceConfig::builder().hide_output_messages(true).build();

    let mut span = LlmSpanBuilder::new("gpt-4").build();
    record_output_message(&mut span, 0, "assistant", "secret response", &config);

    assert_string_attribute(&span, "llm.output_messages.0.message.role", "__REDACTED__");
    assert_string_attribute(&span, "llm.output_messages.0.message.content", "__REDACTED__");
}

#[test]
fn test_record_error() {
    let mut span = LlmSpanBuilder::new("gpt-4").build();
    record_error(&mut span, "RateLimitError", "Too many requests");

    assert_string_attribute(&span, "exception.type", "RateLimitError");
    assert_string_attribute(&span, "exception.message", "Too many requests");
}

#[test]
fn test_embedding_text_hidden() {
    let config = TraceConfig::builder().hide_embeddings_text(true).build();

    let span = EmbeddingSpanBuilder::new("ada-002")
        .config(config)
        .text("sensitive text to embed")
        .build();

    assert_string_attribute(&span, "openinference.span.kind", "EMBEDDING");
    assert_string_attribute(&span, "embedding.model_name", "ada-002");
    assert_string_attribute(&span, "embedding.embeddings.0.embedding.text", "__REDACTED__");
}
