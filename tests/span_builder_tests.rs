use openinference::{
    ChainSpanBuilder, EmbeddingSpanBuilder, Float64, LlmSpanBuilder, RetrieverSpanBuilder,
    SpanConfig, ToolSpanBuilder, TraceConfig,
};

fn float(x: f64) -> Float64 {
    Float64::from_bits(x.to_bits())
}

#[test]
fn test_llm_span_builder() {
    let _span = LlmSpanBuilder::new("gpt-4")
        .provider("openai")
        .temperature(float(0.7))
        .max_tokens(1000)
        .build();

    let _span2 = LlmSpanBuilder::new("mistral-large")
        .provider("anthropic")
        .system("anthropic")
        .top_p(float(0.9))
        .top_k(50)
        .frequency_penalty(float(0.5))
        .presence_penalty(float(0.5))
        .invocation_parameters(r#"{"stream": true}"#)
        .config(TraceConfig::builder().emit_gen_ai_attributes(true).build())
        .build();
}

#[test]
fn test_embedding_span_builder() {
    let _span = EmbeddingSpanBuilder::new("text-embedding-ada-002")
        .text("Hello, world!")
        .build();

    let _span2 = EmbeddingSpanBuilder::new("embed-v3")
        .texts(vec!["text1", "text2", "text3"])
        .config(TraceConfig::default())
        .build();
}

#[test]
fn test_chain_span_builder() {
    let _span = ChainSpanBuilder::new("process_request")
        .input("user query")
        .build();

    let _span2 = ChainSpanBuilder::new("rag_pipeline")
        .input("What is Rust?")
        .input_mime_type("text/plain")
        .config(TraceConfig::builder().emit_gen_ai_attributes(false).build())
        .build();
}

#[test]
fn test_tool_span_builder() {
    let _span = ToolSpanBuilder::new("calculator")
        .description("Performs arithmetic calculations")
        .parameters(r#"{"operation": "add", "a": 1, "b": 2}"#)
        .build();

    let _span2 = ToolSpanBuilder::new("web_search")
        .description("Searches the web")
        .config(TraceConfig::default())
        .build();
}

#[test]
fn test_retriever_span_builder() {
    let _span = RetrieverSpanBuilder::new("vector_search")
        .query("What is the capital of France?")
        .top_k(5)
        .build();

    let _span2 = RetrieverSpanBuilder::new("pinecone")
        .config(TraceConfig::default())
        .build();
}

#[test]
fn test_span_config_default() {
    let config = SpanConfig::default();
    assert!(config.emit_gen_ai_attributes);
    assert!(!config.record_content);
}
