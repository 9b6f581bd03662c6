//! The GenAI attribute vocabulary, emitted beside the primary one, and the
//! partial one-to-one correspondence between the two.
use vstd::prelude::*;
use crate::attributes::{LLM_MODEL_NAME, LLM_PROVIDER, LLM_SYSTEM, LLM_TOKEN_COUNT_PROMPT, LLM_TOKEN_COUNT_COMPLETION};
use crate::text::text_eq;

verus! {

pub const GEN_AI_OPERATION_NAME: &'static str = "gen_ai.operation.name";
pub const GEN_AI_PROVIDER_NAME: &'static str = "gen_ai.provider.name";
pub const GEN_AI_SYSTEM: &'static str = "gen_ai.system";
pub const GEN_AI_REQUEST_MODEL: &'static str = "gen_ai.request.model";
pub const GEN_AI_REQUEST_TEMPERATURE: &'static str = "gen_ai.request.temperature";
pub const GEN_AI_REQUEST_TOP_P: &'static str = "gen_ai.request.top_p";
pub const GEN_AI_REQUEST_TOP_K: &'static str = "gen_ai.request.top_k";
pub const GEN_AI_REQUEST_MAX_TOKENS: &'static str = "gen_ai.request.max_tokens";
pub const GEN_AI_REQUEST_STOP_SEQUENCES: &'static str = "gen_ai.request.stop_sequences";
pub const GEN_AI_REQUEST_FREQUENCY_PENALTY: &'static str = "gen_ai.request.frequency_penalty";
pub const GEN_AI_REQUEST_PRESENCE_PENALTY: &'static str = "gen_ai.request.presence_penalty";
pub const GEN_AI_REQUEST_FINISH_REASONS: &'static str = "gen_ai.request.finish_reasons";
pub const GEN_AI_SYSTEM_INSTRUCTIONS: &'static str = "gen_ai.system_instructions";
pub const GEN_AI_INPUT_MESSAGES: &'static str = "gen_ai.input.messages";
pub const GEN_AI_RESPONSE_MODEL: &'static str = "gen_ai.response.model";
pub const GEN_AI_RESPONSE_ID: &'static str = "gen_ai.response.id";
pub const GEN_AI_RESPONSE_FINISH_REASONS: &'static str = "gen_ai.response.finish_reasons";
pub const GEN_AI_OUTPUT_MESSAGES: &'static str = "gen_ai.output.messages";
pub const GEN_AI_USAGE_INPUT_TOKENS: &'static str = "gen_ai.usage.input_tokens";
pub const GEN_AI_USAGE_OUTPUT_TOKENS: &'static str = "gen_ai.usage.output_tokens";
pub const GEN_AI_TOKEN_TYPE: &'static str = "gen_ai.token.type";
pub const GEN_AI_CHOICE_FINISH_REASON: &'static str = "gen_ai.choice.finish_reason";
pub const GEN_AI_CHOICE_INDEX: &'static str = "gen_ai.choice.index";
pub const GEN_AI_PROMPT_TEMPLATE: &'static str = "gen_ai.prompt.template";
pub const GEN_AI_PROMPT_VERSION: &'static str = "gen_ai.prompt.version";
pub const GEN_AI_TOOL_NAME: &'static str = "gen_ai.tool.name";
pub const GEN_AI_TOOL_CALL_ID: &'static str = "gen_ai.tool.call.id";
pub const GEN_AI_TOOL_ARGUMENTS: &'static str = "gen_ai.tool.arguments";
pub const GEN_AI_TOOL_RESULT: &'static str = "gen_ai.tool.result";
pub const GEN_AI_AGENT_NAME: &'static str = "gen_ai.agent.name";
pub const GEN_AI_AGENT_DESCRIPTION: &'static str = "gen_ai.agent.description";
pub const GEN_AI_AGENT_ID: &'static str = "gen_ai.agent.id";

/// The GenAI key that corresponds to a primary key, for the few that have one.
pub open spec fn gen_ai_equivalent(key: Seq<char>) -> Option<Seq<char>> {
    if key == LLM_MODEL_NAME@ {
        Some(GEN_AI_REQUEST_MODEL@)
    } else if key == LLM_PROVIDER@ {
        Some(GEN_AI_PROVIDER_NAME@)
    } else if key == LLM_SYSTEM@ {
        Some(GEN_AI_SYSTEM@)
    } else if key == LLM_TOKEN_COUNT_PROMPT@ {
        Some(GEN_AI_USAGE_INPUT_TOKENS@)
    } else if key == LLM_TOKEN_COUNT_COMPLETION@ {
        Some(GEN_AI_USAGE_OUTPUT_TOKENS@)
    } else {
        None
    }
}

/// The primary key that corresponds to a GenAI key, for the few that have one.
pub open spec fn openinference_equivalent(key: Seq<char>) -> Option<Seq<char>> {
    if key == GEN_AI_REQUEST_MODEL@ {
        Some(LLM_MODEL_NAME@)
    } else if key == GEN_AI_PROVIDER_NAME@ {
        Some(LLM_PROVIDER@)
    } else if key == GEN_AI_SYSTEM@ {
        Some(LLM_SYSTEM@)
    } else if key == GEN_AI_USAGE_INPUT_TOKENS@ {
        Some(LLM_TOKEN_COUNT_PROMPT@)
    } else if key == GEN_AI_USAGE_OUTPUT_TOKENS@ {
        Some(LLM_TOKEN_COUNT_COMPLETION@)
    } else {
        None
    }
}

/// The GenAI key for a primary key; `None` outside the fixed table.
pub fn map_openinference_to_gen_ai(openinference_key: &str) -> (r: Option<&'static str>)
    ensures
        match r {
            Some(k) => gen_ai_equivalent(openinference_key@) == Some(k@),
            None => gen_ai_equivalent(openinference_key@) is None,
        },
{
    if text_eq(openinference_key, LLM_MODEL_NAME) {
        Some(GEN_AI_REQUEST_MODEL)
    } else if text_eq(openinference_key, LLM_PROVIDER) {
        Some(GEN_AI_PROVIDER_NAME)
    } else if text_eq(openinference_key, LLM_SYSTEM) {
        Some(GEN_AI_SYSTEM)
    } else if text_eq(openinference_key, LLM_TOKEN_COUNT_PROMPT) {
        Some(GEN_AI_USAGE_INPUT_TOKENS)
    } else if text_eq(openinference_key, LLM_TOKEN_COUNT_COMPLETION) {
        Some(GEN_AI_USAGE_OUTPUT_TOKENS)
    } else {
        None
    }
}

/// The primary key for a GenAI key; `None` outside the fixed table.
pub fn map_gen_ai_to_openinference(gen_ai_key: &str) -> (r: Option<&'static str>)
    ensures
        match r {
            Some(k) => openinference_equivalent(gen_ai_key@) == Some(k@),
            None => openinference_equivalent(gen_ai_key@) is None,
        },
{
    if text_eq(gen_ai_key, GEN_AI_REQUEST_MODEL) {
        Some(LLM_MODEL_NAME)
    } else if text_eq(gen_ai_key, GEN_AI_PROVIDER_NAME) {
        Some(LLM_PROVIDER)
    } else if text_eq(gen_ai_key, GEN_AI_SYSTEM) {
        Some(LLM_SYSTEM)
    } else if text_eq(gen_ai_key, GEN_AI_USAGE_INPUT_TOKENS) {
        Some(LLM_TOKEN_COUNT_PROMPT)
    } else if text_eq(gen_ai_key, GEN_AI_USAGE_OUTPUT_TOKENS) {
        Some(LLM_TOKEN_COUNT_COMPLETION)
    } else {
        None
    }
}

} // verus!
