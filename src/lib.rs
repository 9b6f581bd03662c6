//! Privacy-aware attribute emission for traces of LLM-application operations.
//!
//! A [`TraceConfig`] decides which categories of content are hidden. Builders,
//! one per kind of operation, collect fields and finalize into a
//! [`SpanRecord`]: the span's name and its attribute writes, with hidden
//! content replaced by [`REDACTED`]. Recording functions add attributes
//! known only once the operation has completed.
pub mod attributes;
pub mod config;
pub mod fields;
pub mod gen_ai;
pub mod laws;
pub mod llm;
pub mod record;
pub mod recording;
pub mod span_builder;
pub mod span_kind;
pub mod text;

pub use config::{EnvSource, TraceConfig, TraceConfigBuilder, REDACTED};
pub use fields::Document;
pub use llm::LlmSpanBuilder;
pub use record::{Attribute, AttributeValue, Float64, SpanRecord};
pub use recording::{
    record_choice, record_error, record_output_message, record_output_tool_call,
    record_output_value, record_reranked_documents, record_retrieved_documents,
    record_token_usage,
};
pub use span_builder::{
    AgentSpanBuilder, ChainSpanBuilder, EmbeddingSpanBuilder, EvaluatorSpanBuilder,
    GuardrailSpanBuilder, RerankerSpanBuilder, RetrieverSpanBuilder, SpanConfig,
    ToolSpanBuilder,
};
pub use span_kind::SpanKind;
