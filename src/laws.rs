//! Properties that relate the library's functions, stated over the models
//! their contracts use and proved.
use vstd::prelude::*;
use crate::config::{
    all_digits, bool_value, default_config, is_digit, unsigned_digits, env_bool, env_config, env_lookup, env_usize, usize_value,
    TraceConfig, TraceConfigBuilder, DEFAULT_BASE64_IMAGE_MAX_LENGTH, ENV_BASE64_IMAGE_MAX_LENGTH,
    ENV_HIDE_CHOICES, ENV_HIDE_EMBEDDINGS_TEXT, ENV_HIDE_EMBEDDINGS_VECTORS,
    ENV_HIDE_EMBEDDING_VECTORS, ENV_HIDE_INPUTS, ENV_HIDE_INPUT_IMAGES, ENV_HIDE_INPUT_MESSAGES,
    ENV_HIDE_INPUT_TEXT, ENV_HIDE_LLM_INVOCATION_PARAMETERS, ENV_HIDE_OUTPUTS,
    ENV_HIDE_OUTPUT_MESSAGES, ENV_HIDE_OUTPUT_TEXT, ENV_HIDE_PROMPTS,
};
use crate::attributes::embedding::embeddings;
use crate::attributes::llm::input_messages;
use crate::attributes::{
    INPUT_VALUE,
    LLM_INVOCATION_PARAMETERS, LLM_MODEL_NAME, LLM_PROVIDER, LLM_SYSTEM, LLM_TOKEN_COUNT_COMPLETION,
    LLM_TOKEN_COUNT_PROMPT, OPENINFERENCE_SPAN_KIND,
};
use crate::config::REDACTED;
use crate::fields::{
    input_message_attrs, lemma_input_message_layout, lemma_text_list_layout, text_list_attrs,
    text_list_key, TextList,
};
use crate::gen_ai::{
    GEN_AI_PROVIDER_NAME, GEN_AI_REQUEST_FREQUENCY_PENALTY, GEN_AI_REQUEST_MAX_TOKENS,
    GEN_AI_REQUEST_MODEL, GEN_AI_REQUEST_PRESENCE_PENALTY, GEN_AI_REQUEST_TEMPERATURE,
    GEN_AI_REQUEST_TOP_K, GEN_AI_REQUEST_TOP_P, GEN_AI_SYSTEM, GEN_AI_USAGE_INPUT_TOKENS,
    GEN_AI_USAGE_OUTPUT_TOKENS, gen_ai_equivalent, openinference_equivalent,
};
use crate::llm::{llm_gen_ai_attrs, llm_primary_attrs, llm_scalar_attrs, llm_span, LlmSpanModel};
use crate::record::{redact, str_attr, AttributeModel};
use crate::span_builder::{
    embedding_span, identity_attrs, io_span, EmbeddingSpanModel, IoSpanModel,
};
use crate::span_kind::SpanKind;

verus! {

/// A broad switch implies every narrower decision of its category, and a
/// narrower switch never implies a broader decision: with `hide_inputs` and
/// `hide_prompts` both off, prompts stay visible whatever the message and
/// text switches say, and likewise for the other categories.
pub proof fn lemma_cascade_is_one_directional(c: TraceConfig)
    ensures
        c.hide_inputs ==> c.hides_input_messages() && c.hides_input_text()
            && c.hides_input_images() && c.hides_prompts(),
        c.hide_outputs ==> c.hides_output_messages() && c.hides_output_text() && c.hides_choices(),
        c.hide_input_messages ==> c.hides_input_text() && c.hides_input_images(),
        c.hide_output_messages ==> c.hides_output_text(),
        !c.hide_inputs && !c.hide_input_messages ==> !c.hides_input_messages(),
        !c.hide_outputs && !c.hide_output_messages ==> !c.hides_output_messages(),
        !c.hide_inputs && !c.hide_prompts ==> !c.hides_prompts(),
        !c.hide_outputs && !c.hide_choices ==> !c.hides_choices(),
        !c.hide_embedding_vectors && !c.hide_embeddings_vectors ==> !c.hides_embedding_vectors(),
{
}

/// The value of a boolean field after resolution: the builder's value when
/// set, else the environment's when it reads as a boolean, else the default.
pub open spec fn layered_bool(
    over: Option<bool>,
    vars: Seq<(Seq<char>, Seq<char>)>,
    name: Seq<char>,
    default: bool,
) -> bool {
    match over {
        Some(b) => b,
        None => match env_lookup(vars, name) {
            Some(v) => match bool_value(v) {
                Some(b) => b,
                None => default,
            },
            None => default,
        },
    }
}

/// Precedence, field by field: an explicit builder value wins over the
/// environment, which wins over the default.
pub proof fn lemma_builder_over_env_over_default(
    b: TraceConfigBuilder,
    vars: Seq<(Seq<char>, Seq<char>)>,
)
    ensures
        ({
            let r = b.resolve(env_config(vars));
            let d = default_config();
            &&& r.hide_inputs == layered_bool(b.hide_inputs, vars, ENV_HIDE_INPUTS@, d.hide_inputs)
            &&& r.hide_outputs == layered_bool(b.hide_outputs, vars, ENV_HIDE_OUTPUTS@, d.hide_outputs)
            &&& r.hide_input_messages == layered_bool(
                b.hide_input_messages,
                vars,
                ENV_HIDE_INPUT_MESSAGES@,
                d.hide_input_messages,
            )
            &&& r.hide_output_messages == layered_bool(
                b.hide_output_messages,
                vars,
                ENV_HIDE_OUTPUT_MESSAGES@,
                d.hide_output_messages,
            )
            &&& r.hide_input_images == layered_bool(
                b.hide_input_images,
                vars,
                ENV_HIDE_INPUT_IMAGES@,
                d.hide_input_images,
            )
            &&& r.hide_input_text == layered_bool(
                b.hide_input_text,
                vars,
                ENV_HIDE_INPUT_TEXT@,
                d.hide_input_text,
            )
            &&& r.hide_output_text == layered_bool(
                b.hide_output_text,
                vars,
                ENV_HIDE_OUTPUT_TEXT@,
                d.hide_output_text,
            )
            &&& r.hide_llm_invocation_parameters == layered_bool(
                b.hide_llm_invocation_parameters,
                vars,
                ENV_HIDE_LLM_INVOCATION_PARAMETERS@,
                d.hide_llm_invocation_parameters,
            )
            &&& r.hide_embedding_vectors == layered_bool(
                b.hide_embedding_vectors,
                vars,
                ENV_HIDE_EMBEDDING_VECTORS@,
                d.hide_embedding_vectors,
            )
            &&& r.hide_embeddings_vectors == layered_bool(
                b.hide_embeddings_vectors,
                vars,
                ENV_HIDE_EMBEDDINGS_VECTORS@,
                d.hide_embeddings_vectors,
            )
            &&& r.hide_embeddings_text == layered_bool(
                b.hide_embeddings_text,
                vars,
                ENV_HIDE_EMBEDDINGS_TEXT@,
                d.hide_embeddings_text,
            )
            &&& r.hide_prompts == layered_bool(b.hide_prompts, vars, ENV_HIDE_PROMPTS@, d.hide_prompts)
            &&& r.hide_choices == layered_bool(b.hide_choices, vars, ENV_HIDE_CHOICES@, d.hide_choices)
            &&& r.base64_image_max_length == match b.base64_image_max_length {
                Some(n) => n,
                None => match env_lookup(vars, ENV_BASE64_IMAGE_MAX_LENGTH@) {
                    Some(v) => match usize_value(v) {
                        Some(n) => n as usize,
                        None => d.base64_image_max_length,
                    },
                    None => d.base64_image_max_length,
                },
            }
            &&& r.emit_gen_ai_attributes == match b.emit_gen_ai_attributes {
                Some(e) => e,
                None => d.emit_gen_ai_attributes,
            }
        }),
{
}

/// A variable whose value does not read leaves the field at its default,
/// exactly as if it were unset.
pub proof fn lemma_unreadable_env_value_is_ignored(
    vars: Seq<(Seq<char>, Seq<char>)>,
    name: Seq<char>,
    value: Seq<char>,
    default_flag: bool,
    default_length: usize,
)
    requires
        env_lookup(vars, name) == Some(value),
    ensures
        bool_value(value) is None ==> env_bool(vars, name, default_flag) == default_flag,
        usize_value(value) is None ==> env_usize(vars, name, default_length) == default_length,
{
}

/// A length that is not a number, such as `not_a_number`, leaves the image
/// length limit at its default.
pub proof fn lemma_non_numeric_length_is_ignored(vars: Seq<(Seq<char>, Seq<char>)>)
    requires
        env_lookup(vars, ENV_BASE64_IMAGE_MAX_LENGTH@) == Some("not_a_number"@),
    ensures
        env_config(vars).base64_image_max_length == DEFAULT_BASE64_IMAGE_MAX_LENGTH,
{
    reveal_strlit("not_a_number");
    let s = "not_a_number"@;
    assert(s[0] == 'n');
    assert(unsigned_digits(s) == s);
    assert(!is_digit(s[0]));
    assert(!all_digits(s));
}

/// Input messages keep their insertion order: the message added i-th gives
/// the role and content attributes with index `i`, at consecutive positions
/// right after the scalar attributes. The role is redacted only when input
/// messages are hidden; the content whenever input text is hidden.
pub proof fn lemma_input_messages_in_order(m: LlmSpanModel)
    ensures
        forall|i: int|
            0 <= i < m.input_messages.len() ==> {
                &&& #[trigger] llm_span(m).attributes[llm_scalar_attrs(m).len() + 2 * i]
                    == str_attr(
                    input_messages::role_key(i as nat),
                    redact(m.input_messages[i].0, m.config.hides_input_messages()),
                )
                &&& llm_span(m).attributes[llm_scalar_attrs(m).len() + 2 * i + 1] == str_attr(
                    input_messages::content_key(i as nat),
                    redact(m.input_messages[i].1, m.config.hides_input_text()),
                )
            },
{
    let hr = m.config.hides_input_messages();
    let hc = m.config.hides_input_text();
    let head = llm_scalar_attrs(m);
    let msgs = input_message_attrs(m.input_messages, hr, hc);
    let tail = text_list_attrs(TextList::PromptText, m.prompts, m.config.hides_prompts())
        + text_list_attrs(TextList::ToolJsonSchema, m.tools, false);
    lemma_input_message_layout(m.input_messages, hr, hc);
    let all = llm_span(m).attributes;
    assert(llm_primary_attrs(m) =~= head + msgs + tail);
    assert(all.subrange(0, llm_primary_attrs(m).len() as int) =~= llm_primary_attrs(m));
    assert forall|i: int| 0 <= i < m.input_messages.len() implies {
        &&& #[trigger] all[head.len() + 2 * i] == str_attr(
            input_messages::role_key(i as nat),
            redact(m.input_messages[i].0, hr),
        )
        &&& all[head.len() + 2 * i + 1] == str_attr(
            input_messages::content_key(i as nat),
            redact(m.input_messages[i].1, hc),
        )
    } by {
        assert(msgs[2 * i] == str_attr(input_messages::role_key(i as nat), redact(m.input_messages[i].0, hr)));
        assert(all[head.len() + 2 * i] == llm_primary_attrs(m)[head.len() + 2 * i]);
        assert(all[head.len() + 2 * i + 1] == llm_primary_attrs(m)[head.len() + 2 * i + 1]);
    }
}

/// Hidden content is written as the redaction marker, whatever it held: two
/// builders that differ only in a hidden input value finalize into the same
/// span, whose input value is the marker.
pub proof fn lemma_hidden_input_value_is_marker(
    kind: SpanKind,
    m: IoSpanModel,
    first: Seq<char>,
    second: Seq<char>,
)
    requires
        m.config.hide_inputs,
    ensures
        io_span(kind, IoSpanModel { input: Some(first), ..m }) == io_span(
            kind,
            IoSpanModel { input: Some(second), ..m },
        ),
        io_span(kind, IoSpanModel { input: Some(first), ..m }).attributes[1 + identity_attrs(
            kind,
            m.name,
        ).len() as int] == str_attr(INPUT_VALUE@, REDACTED@),
{
    let a = io_span(kind, IoSpanModel { input: Some(first), ..m }).attributes;
    let b = io_span(kind, IoSpanModel { input: Some(second), ..m }).attributes;
    assert(a =~= b);
    let k = 1 + identity_attrs(kind, m.name).len() as int;
    assert(a[k] == str_attr(INPUT_VALUE@, REDACTED@));
}

/// With embedding texts hidden, the text at position `i` is written as the
/// redaction marker, whatever it held.
pub proof fn lemma_hidden_embedding_texts_are_markers(m: EmbeddingSpanModel)
    requires
        m.config.hide_embeddings_text,
    ensures
        embedding_span(m).attributes.len() == 2 + m.texts.len(),
        forall|i: int|
            0 <= i < m.texts.len() ==> #[trigger] embedding_span(m).attributes[2 + i] == str_attr(
                embeddings::text_key(i as nat),
                REDACTED@,
            ),
{
    lemma_text_list_layout(TextList::EmbeddingText, m.texts, true);
    let texts = text_list_attrs(TextList::EmbeddingText, m.texts, true);
    assert forall|i: int| 0 <= i < m.texts.len() implies #[trigger] embedding_span(
        m,
    ).attributes[2 + i] == str_attr(embeddings::text_key(i as nat), REDACTED@) by {
        assert(embedding_span(m).attributes[2 + i] == texts[i]);
    }
}

/// Whether a key belongs to the GenAI vocabulary.
pub open spec fn is_gen_ai_key(k: Seq<char>) -> bool {
    "gen_ai."@.is_prefix_of(k)
}

pub open spec fn no_gen_ai_keys(s: Seq<AttributeModel>) -> bool {
    forall|i: int| 0 <= i < s.len() ==> !is_gen_ai_key(#[trigger] s[i].key)
}

pub open spec fn only_gen_ai_keys(s: Seq<AttributeModel>) -> bool {
    forall|i: int| 0 <= i < s.len() ==> is_gen_ai_key(#[trigger] s[i].key)
}

proof fn lemma_first_char_not_gen_ai(k: Seq<char>)
    requires
        k.len() > 0,
        k[0] != 'g',
    ensures
        !is_gen_ai_key(k),
{
    reveal_strlit("gen_ai.");
    if is_gen_ai_key(k) {
        assert(k[0] == "gen_ai."@[0]);
    }
}

proof fn lemma_gen_ai_literal(k: Seq<char>)
    requires
        k.len() >= 7,
        k.subrange(0, 7) == "gen_ai."@,
    ensures
        is_gen_ai_key(k),
{
    reveal_strlit("gen_ai.");
    assert(forall|i: int| 0 <= i < 7 ==> k.subrange(0, 7)[i] == k[i]);
}

proof fn lemma_no_gen_ai_concat(a: Seq<AttributeModel>, b: Seq<AttributeModel>)
    requires
        no_gen_ai_keys(a),
        no_gen_ai_keys(b),
    ensures
        no_gen_ai_keys(a + b),
{
    assert forall|i: int| 0 <= i < (a + b).len() implies !is_gen_ai_key(#[trigger] (a + b)[i].key) by {
        if i >= a.len() {
            assert((a + b)[i] == b[i - a.len()]);
        }
    }
}

proof fn lemma_only_gen_ai_concat(a: Seq<AttributeModel>, b: Seq<AttributeModel>)
    requires
        only_gen_ai_keys(a),
        only_gen_ai_keys(b),
    ensures
        only_gen_ai_keys(a + b),
{
    assert forall|i: int| 0 <= i < (a + b).len() implies is_gen_ai_key(#[trigger] (a + b)[i].key) by {
        if i >= a.len() {
            assert((a + b)[i] == b[i - a.len()]);
        }
    }
}

/// The keys of a list whose key template begins with `llm.` hold no GenAI key.
proof fn lemma_llm_list_not_gen_ai(list: TextList, texts: Seq<Seq<char>>, hidden: bool)
    requires
        list == TextList::PromptText || list == TextList::ToolJsonSchema,
    ensures
        no_gen_ai_keys(text_list_attrs(list, texts, hidden)),
{
    reveal_strlit("llm.prompts.");
    reveal_strlit("llm.tools.");
    lemma_text_list_layout(list, texts, hidden);
    let a = text_list_attrs(list, texts, hidden);
    assert forall|i: int| 0 <= i < a.len() implies !is_gen_ai_key(#[trigger] a[i].key) by {
        let k = text_list_key(list, i as nat);
        assert(a[i].key == k);
        assert(k[0] == 'l');
        lemma_first_char_not_gen_ai(k);
    }
}

proof fn lemma_messages_not_gen_ai(msgs: Seq<(Seq<char>, Seq<char>)>, hr: bool, hc: bool)
    ensures
        no_gen_ai_keys(input_message_attrs(msgs, hr, hc)),
    decreases msgs.len(),
{
    reveal_strlit("llm.input_messages.");
    if msgs.len() > 0 {
        lemma_messages_not_gen_ai(msgs.drop_last(), hr, hc);
        let i = (msgs.len() - 1) as nat;
        let role = input_messages::role_key(i);
        let content = input_messages::content_key(i);
        assert(role[0] == 'l');
        assert(content[0] == 'l');
        lemma_first_char_not_gen_ai(role);
        lemma_first_char_not_gen_ai(content);
        lemma_no_gen_ai_concat(
            input_message_attrs(msgs.drop_last(), hr, hc),
            seq![str_attr(role, redact(msgs.last().0, hr)), str_attr(content, redact(msgs.last().1, hc))],
        );
    }
}

proof fn lemma_scalars_not_gen_ai(m: LlmSpanModel)
    ensures
        no_gen_ai_keys(llm_scalar_attrs(m)),
{
    reveal_strlit("openinference.span.kind");
    reveal_strlit("llm.model_name");
    reveal_strlit("llm.provider");
    reveal_strlit("llm.system");
    reveal_strlit("llm.invocation_parameters");
    lemma_first_char_not_gen_ai(OPENINFERENCE_SPAN_KIND@);
    lemma_first_char_not_gen_ai(LLM_MODEL_NAME@);
    lemma_first_char_not_gen_ai(LLM_PROVIDER@);
    lemma_first_char_not_gen_ai(LLM_SYSTEM@);
    lemma_first_char_not_gen_ai(LLM_INVOCATION_PARAMETERS@);
    let s = llm_scalar_attrs(m);
    assert forall|i: int| 0 <= i < s.len() implies !is_gen_ai_key(#[trigger] s[i].key) by {
        assert(s[i].key == OPENINFERENCE_SPAN_KIND@ || s[i].key == LLM_MODEL_NAME@ || s[i].key
            == LLM_PROVIDER@ || s[i].key == LLM_SYSTEM@ || s[i].key == LLM_INVOCATION_PARAMETERS@);
    }
}

proof fn lemma_gen_ai_part(m: LlmSpanModel)
    ensures
        only_gen_ai_keys(llm_gen_ai_attrs(m)),
{
    reveal_strlit("gen_ai.");
    reveal_strlit("gen_ai.request.model");
    reveal_strlit("gen_ai.provider.name");
    reveal_strlit("gen_ai.system");
    reveal_strlit("gen_ai.request.temperature");
    reveal_strlit("gen_ai.request.top_p");
    reveal_strlit("gen_ai.request.top_k");
    reveal_strlit("gen_ai.request.max_tokens");
    reveal_strlit("gen_ai.request.frequency_penalty");
    reveal_strlit("gen_ai.request.presence_penalty");
    assert(GEN_AI_REQUEST_MODEL@.subrange(0, 7) =~= "gen_ai."@);
    assert(GEN_AI_PROVIDER_NAME@.subrange(0, 7) =~= "gen_ai."@);
    assert(GEN_AI_SYSTEM@.subrange(0, 7) =~= "gen_ai."@);
    assert(GEN_AI_REQUEST_TEMPERATURE@.subrange(0, 7) =~= "gen_ai."@);
    assert(GEN_AI_REQUEST_TOP_P@.subrange(0, 7) =~= "gen_ai."@);
    assert(GEN_AI_REQUEST_TOP_K@.subrange(0, 7) =~= "gen_ai."@);
    assert(GEN_AI_REQUEST_MAX_TOKENS@.subrange(0, 7) =~= "gen_ai."@);
    assert(GEN_AI_REQUEST_FREQUENCY_PENALTY@.subrange(0, 7) =~= "gen_ai."@);
    assert(GEN_AI_REQUEST_PRESENCE_PENALTY@.subrange(0, 7) =~= "gen_ai."@);
    lemma_gen_ai_literal(GEN_AI_REQUEST_MODEL@);
    lemma_gen_ai_literal(GEN_AI_PROVIDER_NAME@);
    lemma_gen_ai_literal(GEN_AI_SYSTEM@);
    lemma_gen_ai_literal(GEN_AI_REQUEST_TEMPERATURE@);
    lemma_gen_ai_literal(GEN_AI_REQUEST_TOP_P@);
    lemma_gen_ai_literal(GEN_AI_REQUEST_TOP_K@);
    lemma_gen_ai_literal(GEN_AI_REQUEST_MAX_TOKENS@);
    lemma_gen_ai_literal(GEN_AI_REQUEST_FREQUENCY_PENALTY@);
    lemma_gen_ai_literal(GEN_AI_REQUEST_PRESENCE_PENALTY@);
    let s = llm_gen_ai_attrs(m);
    assert forall|i: int| 0 <= i < s.len() implies is_gen_ai_key(#[trigger] s[i].key) by {
        assert(s[i].key == GEN_AI_REQUEST_MODEL@ || s[i].key == GEN_AI_PROVIDER_NAME@ || s[i].key
            == GEN_AI_SYSTEM@ || s[i].key == GEN_AI_REQUEST_TEMPERATURE@ || s[i].key
            == GEN_AI_REQUEST_TOP_P@ || s[i].key == GEN_AI_REQUEST_TOP_K@ || s[i].key
            == GEN_AI_REQUEST_MAX_TOKENS@ || s[i].key == GEN_AI_REQUEST_FREQUENCY_PENALTY@
            || s[i].key == GEN_AI_REQUEST_PRESENCE_PENALTY@);
    }
}

/// The two vocabularies are emitted independently. The primary attributes
/// come first and in full either way. With GenAI emission off, no attribute
/// has a GenAI key; with it on, the GenAI attributes follow, beginning with
/// the requested model, and all have GenAI keys.
pub proof fn lemma_gen_ai_emission_follows_switch(m: LlmSpanModel)
    ensures
        llm_span(m).attributes.subrange(0, llm_primary_attrs(m).len() as int)
            == llm_primary_attrs(m),
        no_gen_ai_keys(llm_primary_attrs(m)),
        !m.config.emit_gen_ai_attributes ==> llm_span(m).attributes == llm_primary_attrs(m)
            && no_gen_ai_keys(llm_span(m).attributes),
        m.config.emit_gen_ai_attributes ==> llm_span(m).attributes == llm_primary_attrs(m)
            + llm_gen_ai_attrs(m) && only_gen_ai_keys(llm_gen_ai_attrs(m)) && llm_gen_ai_attrs(
            m,
        )[0] == str_attr(GEN_AI_REQUEST_MODEL@, m.model_name),
{
    let hr = m.config.hides_input_messages();
    let hc = m.config.hides_input_text();
    lemma_scalars_not_gen_ai(m);
    lemma_messages_not_gen_ai(m.input_messages, hr, hc);
    lemma_llm_list_not_gen_ai(TextList::PromptText, m.prompts, m.config.hides_prompts());
    lemma_llm_list_not_gen_ai(TextList::ToolJsonSchema, m.tools, false);
    let scalars = llm_scalar_attrs(m);
    let msgs = input_message_attrs(m.input_messages, hr, hc);
    let prompts = text_list_attrs(TextList::PromptText, m.prompts, m.config.hides_prompts());
    let tools = text_list_attrs(TextList::ToolJsonSchema, m.tools, false);
    lemma_no_gen_ai_concat(scalars, msgs);
    lemma_no_gen_ai_concat(scalars + msgs, prompts);
    lemma_no_gen_ai_concat(scalars + msgs + prompts, tools);
    lemma_gen_ai_part(m);
    assert(llm_span(m).attributes.subrange(0, llm_primary_attrs(m).len() as int)
        =~= llm_primary_attrs(m));
}

/// Each primary key with a GenAI equivalent maps back to itself, and each
/// GenAI key with a primary equivalent maps back to itself.
pub proof fn lemma_key_mapping_round_trips(key: Seq<char>)
    ensures
        gen_ai_equivalent(key) matches Some(g) ==> openinference_equivalent(g)
            == Some(key),
        openinference_equivalent(key) matches Some(o) ==> gen_ai_equivalent(o)
            == Some(key),
{
    reveal_strlit("llm.model_name");
    reveal_strlit("llm.provider");
    reveal_strlit("llm.system");
    reveal_strlit("llm.token_count.prompt");
    reveal_strlit("llm.token_count.completion");
    reveal_strlit("gen_ai.request.model");
    reveal_strlit("gen_ai.provider.name");
    reveal_strlit("gen_ai.system");
    reveal_strlit("gen_ai.usage.input_tokens");
    reveal_strlit("gen_ai.usage.output_tokens");
    assert(LLM_MODEL_NAME@.len() == 14 && LLM_PROVIDER@.len() == 12 && LLM_SYSTEM@.len() == 10);
    assert(LLM_TOKEN_COUNT_PROMPT@.len() == 22 && LLM_TOKEN_COUNT_COMPLETION@.len() == 26);
    assert(GEN_AI_REQUEST_MODEL@.len() == 20 && GEN_AI_PROVIDER_NAME@.len() == 20);
    assert(GEN_AI_REQUEST_MODEL@[7] != GEN_AI_PROVIDER_NAME@[7]);
    assert(GEN_AI_SYSTEM@.len() == 13 && GEN_AI_USAGE_INPUT_TOKENS@.len() == 25);
    assert(GEN_AI_USAGE_OUTPUT_TOKENS@.len() == 26);
}

} // verus!
