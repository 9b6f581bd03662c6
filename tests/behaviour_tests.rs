use openinference::attributes::embedding::embeddings;
use openinference::attributes::llm::input_messages;
use openinference::attributes::llm::output_messages::tool_calls;
use openinference::attributes::reranker::input_documents;
use openinference::attributes::retrieval::documents;
use openinference::text::{decimal_string, indexed, indexed2, text_eq};
use openinference::{
    record_choice, record_output_message, record_output_tool_call, record_output_value,
    record_reranked_documents, record_retrieved_documents, record_token_usage, AgentSpanBuilder,
    Attribute, AttributeValue, ChainSpanBuilder, Document, EmbeddingSpanBuilder,
    EvaluatorSpanBuilder, Float64, GuardrailSpanBuilder, LlmSpanBuilder, RerankerSpanBuilder,
    SpanRecord, TraceConfig,
};

fn s(v: &str) -> AttributeValue {
    AttributeValue::Str(v.to_string())
}

fn attr(key: &str, value: AttributeValue) -> Attribute {
    Attribute { key: key.to_string(), value }
}

fn keys(span: &SpanRecord) -> Vec<String> {
    span.attributes().iter().map(|a| a.key.clone()).collect()
}

#[test]
fn three_messages_keep_insertion_order() {
    let span = LlmSpanBuilder::new("m")
        .config(TraceConfig::builder().emit_gen_ai_attributes(false).build())
        .input_message("system", "a")
        .input_message("user", "b")
        .input_message("assistant", "c")
        .build();
    let expected = vec![
        attr("openinference.span.kind", s("LLM")),
        attr("llm.model_name", s("m")),
        attr("llm.input_messages.0.message.role", s("system")),
        attr("llm.input_messages.0.message.content", s("a")),
        attr("llm.input_messages.1.message.role", s("user")),
        attr("llm.input_messages.1.message.content", s("b")),
        attr("llm.input_messages.2.message.role", s("assistant")),
        attr("llm.input_messages.2.message.content", s("c")),
    ];
    assert_eq!(span.attributes(), &expected);
}

#[test]
fn role_stays_when_only_text_is_hidden() {
    let text_only = TraceConfig::builder().hide_input_text(true).build();
    let span = LlmSpanBuilder::new("m")
        .config(text_only)
        .input_message("system", "secret")
        .build();
    assert_eq!(span.get("llm.input_messages.0.message.role"), Some(&s("system")));
    assert_eq!(span.get("llm.input_messages.0.message.content"), Some(&s("__REDACTED__")));

    let messages = TraceConfig::builder().hide_input_messages(true).build();
    let span = LlmSpanBuilder::new("m")
        .config(messages)
        .input_message("system", "secret")
        .build();
    assert_eq!(span.get("llm.input_messages.0.message.role"), Some(&s("__REDACTED__")));
    assert_eq!(span.get("llm.input_messages.0.message.content"), Some(&s("__REDACTED__")));
}

#[test]
fn no_gen_ai_attributes_when_switched_off() {
    let off = TraceConfig::builder().emit_gen_ai_attributes(false).build();
    let span = LlmSpanBuilder::new("gpt-4")
        .config(off)
        .provider("openai")
        .system("openai")
        .top_k(3)
        .max_tokens(10)
        .temperature(Float64::from_bits(0.5f64.to_bits()))
        .input_message("user", "hi")
        .prompt("p")
        .tool("{}")
        .invocation_parameters("{}")
        .build();
    assert!(keys(&span).iter().all(|k| !k.starts_with("gen_ai.")));
    assert_eq!(
        keys(&span),
        vec![
            "openinference.span.kind",
            "llm.model_name",
            "llm.provider",
            "llm.system",
            "llm.invocation_parameters",
            "llm.input_messages.0.message.role",
            "llm.input_messages.0.message.content",
            "llm.prompts.0.prompt.text",
            "llm.tools.0.tool.json_schema",
        ]
    );

    let on = LlmSpanBuilder::new("gpt-4").provider("openai").top_k(3).build();
    assert_eq!(
        keys(&on),
        vec![
            "openinference.span.kind",
            "llm.model_name",
            "llm.provider",
            "gen_ai.request.model",
            "gen_ai.provider.name",
            "gen_ai.request.top_k",
        ]
    );
    assert_eq!(on.get("gen_ai.request.top_k"), Some(&AttributeValue::Int(3)));
}

#[test]
fn embedding_end_to_end() {
    let config = TraceConfig::builder().hide_embeddings_text(true).build();
    let span = EmbeddingSpanBuilder::new("ada-002")
        .config(config)
        .texts(vec!["hello"])
        .build();
    assert_eq!(span.name(), "embedding ada-002");
    let expected = vec![
        attr("openinference.span.kind", s("EMBEDDING")),
        attr("embedding.model_name", s("ada-002")),
        attr("embedding.embeddings.0.embedding.text", s("__REDACTED__")),
    ];
    assert_eq!(span.attributes(), &expected);
}

#[test]
fn redaction_ignores_the_value() {
    let hide = TraceConfig::builder().hide_inputs(true).build();
    for value in ["", "x", "__REDACTED__", "a much longer value with spaces and ünïcödé"] {
        let span = ChainSpanBuilder::new("c").config(hide).input(value).build();
        assert_eq!(span.get("input.value"), Some(&s("__REDACTED__")));
    }
    let a = ChainSpanBuilder::new("c").config(hide).input("one").build();
    let b = ChainSpanBuilder::new("c").config(hide).input("").build();
    assert_eq!(a.attributes(), b.attributes());
}

#[test]
fn unset_fields_emit_nothing() {
    let span = ChainSpanBuilder::new("c").build();
    assert_eq!(span.name(), "chain c");
    assert_eq!(span.attributes(), &vec![attr("openinference.span.kind", s("CHAIN"))]);
    let llm = LlmSpanBuilder::new("m")
        .config(TraceConfig::builder().emit_gen_ai_attributes(false).build())
        .build();
    assert_eq!(llm.attributes().len(), 2);
}

#[test]
fn hidden_invocation_parameters_prompts_and_outputs() {
    let config = TraceConfig::builder()
        .hide_llm_invocation_parameters(true)
        .hide_prompts(true)
        .build();
    let span = LlmSpanBuilder::new("m")
        .config(config)
        .invocation_parameters("{\"k\": 1}")
        .prompt("secret prompt")
        .tool("{\"type\": \"object\"}")
        .build();
    assert_eq!(span.get("llm.invocation_parameters"), Some(&s("__REDACTED__")));
    assert_eq!(span.get("llm.prompts.0.prompt.text"), Some(&s("__REDACTED__")));
    assert_eq!(span.get("llm.tools.0.tool.json_schema"), Some(&s("{\"type\": \"object\"}")));

    let visible = LlmSpanBuilder::new("m").prompt("p0").prompt("p1").build();
    assert_eq!(visible.get("llm.prompts.1.prompt.text"), Some(&s("p1")));
}

#[test]
fn agent_guardrail_and_evaluator_spans() {
    let hide_out = TraceConfig::builder().hide_outputs(true).build();
    let agent = AgentSpanBuilder::new("planner")
        .config(hide_out)
        .input("goal")
        .output("plan")
        .output_mime_type("text/plain")
        .build();
    assert_eq!(agent.name(), "agent planner");
    let expected = vec![
        attr("openinference.span.kind", s("AGENT")),
        attr("agent.name", s("planner")),
        attr("input.value", s("goal")),
        attr("output.value", s("__REDACTED__")),
        attr("output.mime_type", s("text/plain")),
    ];
    assert_eq!(agent.attributes(), &expected);

    let guard = GuardrailSpanBuilder::new("pii").input("text").build();
    assert_eq!(guard.name(), "guardrail pii");
    assert_eq!(guard.get("openinference.span.kind"), Some(&s("GUARDRAIL")));
    assert_eq!(guard.get("agent.name"), None);
    assert_eq!(guard.get("input.value"), Some(&s("text")));

    let eval = EvaluatorSpanBuilder::new("judge").output("0.9").build();
    assert_eq!(eval.name(), "evaluator judge");
    assert_eq!(eval.get("openinference.span.kind"), Some(&s("EVALUATOR")));
    assert_eq!(eval.get("output.value"), Some(&s("0.9")));
}

#[test]
fn reranker_span_with_documents() {
    let score = Float64::from_bits(0.25f64.to_bits());
    let span = RerankerSpanBuilder::new("rerank-v1")
        .config(TraceConfig::builder().hide_inputs(true).build())
        .query("q")
        .top_k(2)
        .input_document(Document::new("first").with_id("d1").with_score(score))
        .input_document(Document::new("second"))
        .build();
    assert_eq!(span.name(), "reranker rerank-v1");
    let expected = vec![
        attr("openinference.span.kind", s("RERANKER")),
        attr("reranker.model_name", s("rerank-v1")),
        attr("reranker.query", s("__REDACTED__")),
        attr("reranker.top_k", AttributeValue::Int(2)),
        attr("reranker.input_documents.0.document.id", s("d1")),
        attr("reranker.input_documents.0.document.content", s("first")),
        attr("reranker.input_documents.0.document.score", AttributeValue::Float(score)),
        attr("reranker.input_documents.1.document.content", s("second")),
    ];
    assert_eq!(span.attributes(), &expected);
}

#[test]
fn recorded_documents_choices_tool_calls_and_outputs() {
    let config = TraceConfig::builder().hide_output_text(true).hide_choices(true).build();
    let mut span = LlmSpanBuilder::new("m").build();
    let before = span.attributes().len();
    record_output_message(&mut span, 1, "assistant", "answer", &config);
    record_output_tool_call(&mut span, 1, 0, "call_1", "lookup", "{\"q\": 1}", &config);
    record_choice(&mut span, 0, "choice text", &config);
    record_output_value(&mut span, "final", &TraceConfig::default());
    assert_eq!(span.get("llm.output_messages.1.message.role"), Some(&s("assistant")));
    assert_eq!(span.get("llm.output_messages.1.message.content"), Some(&s("__REDACTED__")));
    assert_eq!(
        span.get("llm.output_messages.1.message.tool_calls.0.tool_call.id"),
        Some(&s("call_1"))
    );
    assert_eq!(
        span.get("llm.output_messages.1.message.tool_calls.0.tool_call.function.name"),
        Some(&s("lookup"))
    );
    assert_eq!(
        span.get("llm.output_messages.1.message.tool_calls.0.tool_call.function.arguments"),
        Some(&s("__REDACTED__"))
    );
    assert_eq!(span.get("llm.choices.0.completion.text"), Some(&s("__REDACTED__")));
    assert_eq!(span.get("output.value"), Some(&s("final")));
    assert_eq!(span.attributes().len(), before + 7);

    let mut retrieval = openinference::RetrieverSpanBuilder::new("r").build();
    let docs = vec![Document::new("alpha").with_id("a"), Document::new("beta")];
    record_retrieved_documents(&mut retrieval, &docs);
    assert_eq!(retrieval.get("retrieval.documents.0.document.id"), Some(&s("a")));
    assert_eq!(retrieval.get("retrieval.documents.0.document.content"), Some(&s("alpha")));
    assert_eq!(retrieval.get("retrieval.documents.1.document.content"), Some(&s("beta")));
    assert_eq!(retrieval.get("retrieval.documents.1.document.id"), None);

    let mut rerank = RerankerSpanBuilder::new("m").build();
    record_reranked_documents(&mut rerank, &vec![Document::new("top")]);
    assert_eq!(rerank.get("reranker.output_documents.0.document.content"), Some(&s("top")));
}

#[test]
fn later_writes_override_earlier_ones() {
    let mut span = LlmSpanBuilder::new("m").build();
    let config = TraceConfig::default();
    record_output_message(&mut span, 0, "assistant", "first", &config);
    record_output_message(&mut span, 0, "assistant", "second", &config);
    assert_eq!(span.get("llm.output_messages.0.message.content"), Some(&s("second")));
}

#[test]
fn token_usage_without_gen_ai() {
    let off = TraceConfig::builder().emit_gen_ai_attributes(false).build();
    let mut span = LlmSpanBuilder::new("m").config(off).build();
    record_token_usage(&mut span, -3, 10);
    assert_eq!(span.get("llm.token_count.total"), Some(&AttributeValue::Int(7)));
    assert_eq!(span.get("gen_ai.usage.input_tokens"), None);
    assert_eq!(span.get("gen_ai.usage.output_tokens"), None);
}

#[test]
fn indexed_keys_render_indices_in_decimal() {
    assert_eq!(decimal_string(0), "0");
    assert_eq!(decimal_string(7), "7");
    assert_eq!(decimal_string(10), "10");
    assert_eq!(decimal_string(1234567890), "1234567890");
    assert_eq!(decimal_string(usize::MAX), usize::MAX.to_string());
    assert_eq!(indexed("a.", 42, ".b"), "a.42.b");
    assert_eq!(indexed2("x", 3, "y", 100, "z"), "x3y100z");
    assert_eq!(embeddings::text(12), "embedding.embeddings.12.embedding.text");
    assert_eq!(
        input_messages::content_type(1, 2),
        "llm.input_messages.1.message.contents.2.message_content.type"
    );
    assert_eq!(
        tool_calls::function_arguments(0, 5),
        "llm.output_messages.0.message.tool_calls.5.tool_call.function.arguments"
    );
    assert_eq!(input_documents::score(9), "reranker.input_documents.9.document.score");
    assert_eq!(documents::id(3), "retrieval.documents.3.document.id");
    assert!(text_eq("abc", "abc"));
    assert!(!text_eq("abc", "abd"));
    assert!(!text_eq("", "a"));
}

#[test]
fn many_messages_use_multi_digit_indices() {
    let mut b = LlmSpanBuilder::new("m");
    for i in 0..12 {
        b = b.input_message("user", &format!("message {}", i));
    }
    let span = b.build();
    assert_eq!(span.get("llm.input_messages.11.message.content"), Some(&s("message 11")));
    assert_eq!(span.get("llm.input_messages.10.message.role"), Some(&s("user")));
}
