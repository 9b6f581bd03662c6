//! Writes to a span after its operation has completed: token usage, output
//! messages and tool calls, completion choices, documents, output values and
//! errors. They follow the same redaction rules as the builders.
use vstd::prelude::*;
use crate::attributes::llm::output_messages::{self, tool_calls};
use crate::attributes::llm::choices;
use crate::attributes::{
    EXCEPTION_MESSAGE, EXCEPTION_TYPE, LLM_TOKEN_COUNT_COMPLETION, LLM_TOKEN_COUNT_PROMPT,
    LLM_TOKEN_COUNT_TOTAL, OUTPUT_VALUE,
};
use crate::config::TraceConfig;
use crate::fields::{
    document_list_attrs, documents_view, write_document_list, Document, DocumentList,
};
use crate::gen_ai::{GEN_AI_USAGE_INPUT_TOKENS, GEN_AI_USAGE_OUTPUT_TOKENS};
use crate::record::{int_attr, redact, str_attr, AttributeModel, SpanModel, SpanRecord};

verus! {

/// `span` with `added` written after its earlier attributes.
pub open spec fn appended(span: SpanModel, added: Seq<AttributeModel>) -> SpanModel {
    SpanModel { attributes: span.attributes + added, ..span }
}

/// The token counts: prompt, completion and their total, then the GenAI
/// input and output counts when the span takes GenAI attributes.
pub open spec fn token_usage_attrs(prompt: i64, completion: i64, gen_ai: bool) -> Seq<AttributeModel> {
    seq![
        int_attr(LLM_TOKEN_COUNT_PROMPT@, prompt),
        int_attr(LLM_TOKEN_COUNT_COMPLETION@, completion),
        int_attr(LLM_TOKEN_COUNT_TOTAL@, (prompt + completion) as i64),
    ] + if gen_ai {
        seq![
            int_attr(GEN_AI_USAGE_INPUT_TOKENS@, prompt),
            int_attr(GEN_AI_USAGE_OUTPUT_TOKENS@, completion),
        ]
    } else {
        Seq::empty()
    }
}

/// Records the token counts of a model call. The total must fit in an `i64`.
pub fn record_token_usage(span: &mut SpanRecord, prompt_tokens: i64, completion_tokens: i64)
    requires
        i64::MIN <= prompt_tokens + completion_tokens <= i64::MAX,
    ensures
        final(span)@ == appended(
            old(span)@,
            token_usage_attrs(prompt_tokens, completion_tokens, old(span)@.emit_gen_ai),
        ),
{
    let total = prompt_tokens + completion_tokens;
    span.set_int(LLM_TOKEN_COUNT_PROMPT, prompt_tokens);
    span.set_int(LLM_TOKEN_COUNT_COMPLETION, completion_tokens);
    span.set_int(LLM_TOKEN_COUNT_TOTAL, total);
    if span.emits_gen_ai() {
        span.set_int(GEN_AI_USAGE_INPUT_TOKENS, prompt_tokens);
        span.set_int(GEN_AI_USAGE_OUTPUT_TOKENS, completion_tokens);
    }
    assert(final(span)@.attributes =~= old(span)@.attributes + token_usage_attrs(
        prompt_tokens,
        completion_tokens,
        old(span)@.emit_gen_ai,
    ));
}

/// The attributes of the output message at `index`: the role, redacted when
/// output messages are hidden; the content, redacted when output text is.
pub open spec fn output_message_attrs(
    index: nat,
    role: Seq<char>,
    content: Seq<char>,
    config: TraceConfig,
) -> Seq<AttributeModel> {
    seq![
        str_attr(output_messages::role_key(index), redact(role, config.hides_output_messages())),
        str_attr(output_messages::content_key(index), redact(content, config.hides_output_text())),
    ]
}

/// Records the output message at position `index`.
pub fn record_output_message(
    span: &mut SpanRecord,
    index: usize,
    role: &str,
    content: &str,
    config: &TraceConfig,
)
    ensures
        final(span)@ == appended(
            old(span)@,
            output_message_attrs(index as nat, role@, content@, *config),
        ),
{
    let role_key = output_messages::role(index);
    span.set_str(role_key.as_str(), role, config.should_hide_output_messages());
    let content_key = output_messages::content(index);
    span.set_str(content_key.as_str(), content, config.should_hide_output_text());
    assert(final(span)@.attributes =~= old(span)@.attributes + output_message_attrs(
        index as nat,
        role@,
        content@,
        *config,
    ));
}

/// The attributes of a tool call on an output message: its id and function
/// name, which are never redacted, and its arguments, redacted when output
/// text is hidden.
pub open spec fn output_tool_call_attrs(
    message_index: nat,
    call_index: nat,
    id: Seq<char>,
    function_name: Seq<char>,
    arguments: Seq<char>,
    config: TraceConfig,
) -> Seq<AttributeModel> {
    seq![
        str_attr(tool_calls::id_key(message_index, call_index), id),
        str_attr(tool_calls::function_name_key(message_index, call_index), function_name),
        str_attr(
            tool_calls::function_arguments_key(message_index, call_index),
            redact(arguments, config.hides_output_text()),
        ),
    ]
}

/// Records the tool call at position `call_index` of the output message at
/// position `message_index`.
pub fn record_output_tool_call(
    span: &mut SpanRecord,
    message_index: usize,
    call_index: usize,
    id: &str,
    function_name: &str,
    arguments: &str,
    config: &TraceConfig,
)
    ensures
        final(span)@ == appended(
            old(span)@,
            output_tool_call_attrs(
                message_index as nat,
                call_index as nat,
                id@,
                function_name@,
                arguments@,
                *config,
            ),
        ),
{
    let id_key = tool_calls::id(message_index, call_index);
    span.set_str(id_key.as_str(), id, false);
    let name_key = tool_calls::function_name(message_index, call_index);
    span.set_str(name_key.as_str(), function_name, false);
    let arguments_key = tool_calls::function_arguments(message_index, call_index);
    span.set_str(arguments_key.as_str(), arguments, config.should_hide_output_text());
    assert(final(span)@.attributes =~= old(span)@.attributes + output_tool_call_attrs(
        message_index as nat,
        call_index as nat,
        id@,
        function_name@,
        arguments@,
        *config,
    ));
}

/// Records the completion text of the choice at position `index`, redacted
/// when choices are hidden.
pub fn record_choice(span: &mut SpanRecord, index: usize, text: &str, config: &TraceConfig)
    ensures
        final(span)@ == appended(
            old(span)@,
            seq![str_attr(choices::text_key(index as nat), redact(text@, config.hides_choices()))],
        ),
{
    let key = choices::text(index);
    span.set_str(key.as_str(), text, config.should_hide_choices());
    assert(final(span)@.attributes =~= old(span)@.attributes + seq![
        str_attr(choices::text_key(index as nat), redact(text@, config.hides_choices())),
    ]);
}

/// Records the documents a retrieval returned, in order.
pub fn record_retrieved_documents(span: &mut SpanRecord, documents: &Vec<Document>)
    ensures
        final(span)@ == appended(
            old(span)@,
            document_list_attrs(DocumentList::Retrieved, documents_view(documents@)),
        ),
{
    write_document_list(span, DocumentList::Retrieved, documents);
}

/// Records the documents a reranking returned, in order.
pub fn record_reranked_documents(span: &mut SpanRecord, documents: &Vec<Document>)
    ensures
        final(span)@ == appended(
            old(span)@,
            document_list_attrs(DocumentList::RerankerOutput, documents_view(documents@)),
        ),
{
    write_document_list(span, DocumentList::RerankerOutput, documents);
}

/// Records the final output value, redacted when outputs are hidden.
pub fn record_output_value(span: &mut SpanRecord, value: &str, config: &TraceConfig)
    ensures
        final(span)@ == appended(
            old(span)@,
            seq![str_attr(OUTPUT_VALUE@, redact(value@, config.hide_outputs))],
        ),
{
    span.set_str(OUTPUT_VALUE, value, config.hide_outputs);
    assert(final(span)@.attributes =~= old(span)@.attributes + seq![
        str_attr(OUTPUT_VALUE@, redact(value@, config.hide_outputs)),
    ]);
}

/// Records an error: its type and message.
pub fn record_error(span: &mut SpanRecord, error_type: &str, message: &str)
    ensures
        final(span)@ == appended(
            old(span)@,
            seq![str_attr(EXCEPTION_TYPE@, error_type@), str_attr(EXCEPTION_MESSAGE@, message@)],
        ),
{
    span.set_str(EXCEPTION_TYPE, error_type, false);
    span.set_str(EXCEPTION_MESSAGE, message, false);
    assert(final(span)@.attributes =~= old(span)@.attributes + seq![
        str_attr(EXCEPTION_TYPE@, error_type@),
        str_attr(EXCEPTION_MESSAGE@, message@),
    ]);
}

} // verus!
