//! Attribute keys: the fixed scalar keys here, and in the submodules the
//! generators of the keys of repeated fields, parametrized by zero-based
//! positions in insertion order.
use vstd::prelude::*;

pub mod embedding;
pub mod llm;
pub mod reranker;
pub mod retrieval;

verus! {

pub const OPENINFERENCE_SPAN_KIND: &'static str = "openinference.span.kind";
pub const LLM_MODEL_NAME: &'static str = "llm.model_name";
pub const LLM_SYSTEM: &'static str = "llm.system";
pub const LLM_PROVIDER: &'static str = "llm.provider";
pub const LLM_INVOCATION_PARAMETERS: &'static str = "llm.invocation_parameters";
pub const LLM_FUNCTION_CALL: &'static str = "llm.function_call";
pub const LLM_PROMPT_TEMPLATE_TEMPLATE: &'static str = "llm.prompt_template.template";
pub const LLM_PROMPT_TEMPLATE_VARIABLES: &'static str = "llm.prompt_template.variables";
pub const LLM_PROMPT_TEMPLATE_VERSION: &'static str = "llm.prompt_template.version";
pub const LLM_TOKEN_COUNT_PROMPT: &'static str = "llm.token_count.prompt";
pub const LLM_TOKEN_COUNT_COMPLETION: &'static str = "llm.token_count.completion";
pub const LLM_TOKEN_COUNT_TOTAL: &'static str = "llm.token_count.total";
pub const LLM_TOKEN_COUNT_PROMPT_DETAILS_CACHE_READ: &'static str = "llm.token_count.prompt_details.cache_read";
pub const LLM_TOKEN_COUNT_PROMPT_DETAILS_CACHE_WRITE: &'static str = "llm.token_count.prompt_details.cache_write";
pub const LLM_TOKEN_COUNT_PROMPT_DETAILS_AUDIO: &'static str = "llm.token_count.prompt_details.audio";
pub const LLM_TOKEN_COUNT_COMPLETION_DETAILS_REASONING: &'static str = "llm.token_count.completion_details.reasoning";
pub const LLM_TOKEN_COUNT_COMPLETION_DETAILS_AUDIO: &'static str = "llm.token_count.completion_details.audio";
pub const LLM_COST_PROMPT: &'static str = "llm.cost.prompt";
pub const LLM_COST_COMPLETION: &'static str = "llm.cost.completion";
pub const LLM_COST_TOTAL: &'static str = "llm.cost.total";
pub const LLM_COST_PROMPT_DETAILS_INPUT: &'static str = "llm.cost.prompt_details.input";
pub const LLM_COST_PROMPT_DETAILS_CACHE_WRITE: &'static str = "llm.cost.prompt_details.cache_write";
pub const LLM_COST_PROMPT_DETAILS_CACHE_READ: &'static str = "llm.cost.prompt_details.cache_read";
pub const LLM_COST_PROMPT_DETAILS_CACHE_INPUT: &'static str = "llm.cost.prompt_details.cache_input";
pub const LLM_COST_PROMPT_DETAILS_AUDIO: &'static str = "llm.cost.prompt_details.audio";
pub const LLM_COST_COMPLETION_DETAILS_OUTPUT: &'static str = "llm.cost.completion_details.output";
pub const LLM_COST_COMPLETION_DETAILS_REASONING: &'static str = "llm.cost.completion_details.reasoning";
pub const LLM_COST_COMPLETION_DETAILS_AUDIO: &'static str = "llm.cost.completion_details.audio";
pub const EMBEDDING_MODEL_NAME: &'static str = "embedding.model_name";
pub const EMBEDDING_TEXT: &'static str = "embedding.text";
pub const EMBEDDING_VECTOR: &'static str = "embedding.vector";
pub const EMBEDDING_INVOCATION_PARAMETERS: &'static str = "embedding.invocation_parameters";
pub const TOOL_NAME: &'static str = "tool.name";
pub const TOOL_DESCRIPTION: &'static str = "tool.description";
pub const TOOL_JSON_SCHEMA: &'static str = "tool.json_schema";
pub const TOOL_PARAMETERS: &'static str = "tool.parameters";
pub const TOOL_ID: &'static str = "tool.id";
pub const TOOL_CALL_ID: &'static str = "tool_call.id";
pub const TOOL_CALL_FUNCTION_NAME: &'static str = "tool_call.function.name";
pub const TOOL_CALL_FUNCTION_ARGUMENTS: &'static str = "tool_call.function.arguments";
pub const DOCUMENT_ID: &'static str = "document.id";
pub const DOCUMENT_CONTENT: &'static str = "document.content";
pub const DOCUMENT_SCORE: &'static str = "document.score";
pub const DOCUMENT_METADATA: &'static str = "document.metadata";
pub const RERANKER_MODEL_NAME: &'static str = "reranker.model_name";
pub const RERANKER_QUERY: &'static str = "reranker.query";
pub const RERANKER_TOP_K: &'static str = "reranker.top_k";
pub const INPUT_VALUE: &'static str = "input.value";
pub const INPUT_MIME_TYPE: &'static str = "input.mime_type";
pub const OUTPUT_VALUE: &'static str = "output.value";
pub const OUTPUT_MIME_TYPE: &'static str = "output.mime_type";
pub const USER_ID: &'static str = "user.id";
pub const SESSION_ID: &'static str = "session.id";
pub const EXCEPTION_TYPE: &'static str = "exception.type";
pub const EXCEPTION_MESSAGE: &'static str = "exception.message";
pub const EXCEPTION_STACKTRACE: &'static str = "exception.stacktrace";
pub const EXCEPTION_ESCAPED: &'static str = "exception.escaped";
pub const METADATA: &'static str = "metadata";
pub const TAG_TAGS: &'static str = "tag.tags";
pub const IMAGE_URL: &'static str = "image.url";
pub const AUDIO_URL: &'static str = "audio.url";
pub const AUDIO_MIME_TYPE: &'static str = "audio.mime_type";
pub const AUDIO_TRANSCRIPT: &'static str = "audio.transcript";
pub const AGENT_NAME: &'static str = "agent.name";
pub const GRAPH_NODE_ID: &'static str = "graph.node.id";
pub const GRAPH_NODE_NAME: &'static str = "graph.node.name";
pub const GRAPH_NODE_PARENT_ID: &'static str = "graph.node.parent_id";
pub const PROMPT_VENDOR: &'static str = "prompt.vendor";
pub const PROMPT_ID: &'static str = "prompt.id";
pub const PROMPT_URL: &'static str = "prompt.url";
pub const MESSAGE_ROLE: &'static str = "message.role";
pub const MESSAGE_CONTENT: &'static str = "message.content";
pub const MESSAGE_FUNCTION_CALL_NAME: &'static str = "message.function_call_name";
pub const MESSAGE_FUNCTION_CALL_ARGUMENTS_JSON: &'static str = "message.function_call_arguments_json";
pub const MESSAGE_TOOL_CALL_ID: &'static str = "message.tool_call_id";

} // verus!
