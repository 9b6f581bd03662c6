//! The builder of LLM spans: a model call with its sampling parameters,
//! input messages, completion prompts and available tools.
use vstd::prelude::*;
use vstd::string::StringExecFns;
use crate::attributes::{
    LLM_INVOCATION_PARAMETERS, LLM_MODEL_NAME, LLM_PROVIDER, LLM_SYSTEM, OPENINFERENCE_SPAN_KIND,
};
use crate::config::{default_config, TraceConfig};
use crate::fields::{input_message_attrs, text_list_attrs, write_input_messages, write_text_list, TextList};
use crate::gen_ai::{
    GEN_AI_PROVIDER_NAME, GEN_AI_REQUEST_FREQUENCY_PENALTY, GEN_AI_REQUEST_MAX_TOKENS,
    GEN_AI_REQUEST_MODEL, GEN_AI_REQUEST_PRESENCE_PENALTY, GEN_AI_REQUEST_TEMPERATURE,
    GEN_AI_REQUEST_TOP_K, GEN_AI_REQUEST_TOP_P, GEN_AI_SYSTEM,
};
use crate::record::{opt_float, opt_int, opt_str, str_attr, AttributeModel, Float64, SpanModel, SpanRecord};
use crate::span_kind::{kind_name, span_name, SpanKind};

verus! {

/// What an LLM builder holds.
pub struct LlmSpanModel {
    pub model_name: Seq<char>,
    pub provider: Option<Seq<char>>,
    pub system: Option<Seq<char>>,
    pub temperature: Option<Float64>,
    pub top_p: Option<Float64>,
    pub top_k: Option<i64>,
    pub max_tokens: Option<i64>,
    pub frequency_penalty: Option<Float64>,
    pub presence_penalty: Option<Float64>,
    pub input_messages: Seq<(Seq<char>, Seq<char>)>,
    pub invocation_parameters: Option<Seq<char>>,
    pub prompts: Seq<Seq<char>>,
    pub tools: Seq<Seq<char>>,
    pub config: TraceConfig,
}

/// The scalar primary attributes of an LLM span: the kind, the model name,
/// the provider, the system and the invocation parameters (redacted when
/// those are hidden).
pub open spec fn llm_scalar_attrs(m: LlmSpanModel) -> Seq<AttributeModel> {
    seq![
        str_attr(OPENINFERENCE_SPAN_KIND@, kind_name(SpanKind::Llm)),
        str_attr(LLM_MODEL_NAME@, m.model_name),
    ] + opt_str(LLM_PROVIDER@, m.provider, false) + opt_str(LLM_SYSTEM@, m.system, false) + opt_str(
        LLM_INVOCATION_PARAMETERS@,
        m.invocation_parameters,
        m.config.hide_llm_invocation_parameters,
    )
}

/// The primary-vocabulary attributes of an LLM span: the scalar ones, then
/// each input message (role redacted when input messages are hidden, content
/// when input text is), each prompt (redacted when prompts are hidden) and
/// each tool schema.
pub open spec fn llm_primary_attrs(m: LlmSpanModel) -> Seq<AttributeModel> {
    llm_scalar_attrs(m) + input_message_attrs(
        m.input_messages,
        m.config.hides_input_messages(),
        m.config.hides_input_text(),
    ) + text_list_attrs(TextList::PromptText, m.prompts, m.config.hides_prompts())
        + text_list_attrs(TextList::ToolJsonSchema, m.tools, false)
}

/// The GenAI-vocabulary attributes of an LLM span.
pub open spec fn llm_gen_ai_attrs(m: LlmSpanModel) -> Seq<AttributeModel> {
    seq![str_attr(GEN_AI_REQUEST_MODEL@, m.model_name)] + opt_str(
        GEN_AI_PROVIDER_NAME@,
        m.provider,
        false,
    ) + opt_str(GEN_AI_SYSTEM@, m.system, false) + opt_float(
        GEN_AI_REQUEST_TEMPERATURE@,
        m.temperature,
    ) + opt_float(GEN_AI_REQUEST_TOP_P@, m.top_p) + opt_int(GEN_AI_REQUEST_TOP_K@, m.top_k)
        + opt_int(GEN_AI_REQUEST_MAX_TOKENS@, m.max_tokens) + opt_float(
        GEN_AI_REQUEST_FREQUENCY_PENALTY@,
        m.frequency_penalty,
    ) + opt_float(GEN_AI_REQUEST_PRESENCE_PENALTY@, m.presence_penalty)
}

/// The span an LLM builder finalizes into: named `llm {model}`, the primary
/// attributes, then the GenAI ones when the configuration asks for them.
pub open spec fn llm_span(m: LlmSpanModel) -> SpanModel {
    SpanModel {
        name: span_name(SpanKind::Llm, m.model_name),
        attributes: if m.config.emit_gen_ai_attributes {
            llm_primary_attrs(m) + llm_gen_ai_attrs(m)
        } else {
            llm_primary_attrs(m)
        },
        emit_gen_ai: m.config.emit_gen_ai_attributes,
    }
}

/// Builder for spans of calls to a large language model.
#[derive(Debug, Clone)]
pub struct LlmSpanBuilder {
    model_name: String,
    provider: Option<String>,
    system: Option<String>,
    temperature: Option<Float64>,
    top_p: Option<Float64>,
    top_k: Option<i64>,
    max_tokens: Option<i64>,
    frequency_penalty: Option<Float64>,
    presence_penalty: Option<Float64>,
    input_messages: Vec<(String, String)>,
    invocation_parameters: Option<String>,
    prompts: Vec<String>,
    tools: Vec<String>,
    config: TraceConfig,
}

impl View for LlmSpanBuilder {
    type V = LlmSpanModel;

    closed spec fn view(&self) -> LlmSpanModel {
        LlmSpanModel {
            model_name: self.model_name@,
            provider: self.provider.deep_view(),
            system: self.system.deep_view(),
            temperature: self.temperature,
            top_p: self.top_p,
            top_k: self.top_k,
            max_tokens: self.max_tokens,
            frequency_penalty: self.frequency_penalty,
            presence_penalty: self.presence_penalty,
            input_messages: self.input_messages.deep_view(),
            invocation_parameters: self.invocation_parameters.deep_view(),
            prompts: self.prompts.deep_view(),
            tools: self.tools.deep_view(),
            config: self.config,
        }
    }
}

impl LlmSpanBuilder {
    /// A builder for `model_name` with nothing else set and the default
    /// configuration.
    pub fn new(model_name: &str) -> (r: LlmSpanBuilder)
        ensures
            r@ == (LlmSpanModel {
                model_name: model_name@,
                provider: None,
                system: None,
                temperature: None,
                top_p: None,
                top_k: None,
                max_tokens: None,
                frequency_penalty: None,
                presence_penalty: None,
                input_messages: Seq::empty(),
                invocation_parameters: None,
                prompts: Seq::empty(),
                tools: Seq::empty(),
                config: default_config(),
            }),
    {
        let r = LlmSpanBuilder {
            model_name: String::from_str(model_name),
            provider: None,
            system: None,
            temperature: None,
            top_p: None,
            top_k: None,
            max_tokens: None,
            frequency_penalty: None,
            presence_penalty: None,
            input_messages: Vec::new(),
            invocation_parameters: None,
            prompts: Vec::new(),
            tools: Vec::new(),
            config: TraceConfig::default(),
        };
        assert(r.input_messages.deep_view() =~= Seq::<(Seq<char>, Seq<char>)>::empty());
        assert(r.prompts.deep_view() =~= Seq::<Seq<char>>::empty());
        assert(r.tools.deep_view() =~= Seq::<Seq<char>>::empty());
        r
    }

    /// Replaces the configuration.
    pub fn config(self, config: TraceConfig) -> (r: LlmSpanBuilder)
        ensures
            r@ == (LlmSpanModel { config, ..self@ }),
    {
        LlmSpanBuilder { config, ..self }
    }

    pub fn provider(self, provider: &str) -> (r: LlmSpanBuilder)
        ensures
            r@ == (LlmSpanModel { provider: Some(provider@), ..self@ }),
    {
        LlmSpanBuilder { provider: Some(String::from_str(provider)), ..self }
    }

    pub fn system(self, system: &str) -> (r: LlmSpanBuilder)
        ensures
            r@ == (LlmSpanModel { system: Some(system@), ..self@ }),
    {
        LlmSpanBuilder { system: Some(String::from_str(system)), ..self }
    }

    pub fn temperature(self, temperature: Float64) -> (r: LlmSpanBuilder)
        ensures
            r@ == (LlmSpanModel { temperature: Some(temperature), ..self@ }),
    {
        LlmSpanBuilder { temperature: Some(temperature), ..self }
    }

    pub fn top_p(self, top_p: Float64) -> (r: LlmSpanBuilder)
        ensures
            r@ == (LlmSpanModel { top_p: Some(top_p), ..self@ }),
    {
        LlmSpanBuilder { top_p: Some(top_p), ..self }
    }

    pub fn top_k(self, top_k: i64) -> (r: LlmSpanBuilder)
        ensures
            r@ == (LlmSpanModel { top_k: Some(top_k), ..self@ }),
    {
        LlmSpanBuilder { top_k: Some(top_k), ..self }
    }

    pub fn max_tokens(self, max_tokens: i64) -> (r: LlmSpanBuilder)
        ensures
            r@ == (LlmSpanModel { max_tokens: Some(max_tokens), ..self@ }),
    {
        LlmSpanBuilder { max_tokens: Some(max_tokens), ..self }
    }

    pub fn frequency_penalty(self, penalty: Float64) -> (r: LlmSpanBuilder)
        ensures
            r@ == (LlmSpanModel { frequency_penalty: Some(penalty), ..self@ }),
    {
        LlmSpanBuilder { frequency_penalty: Some(penalty), ..self }
    }

    pub fn presence_penalty(self, penalty: Float64) -> (r: LlmSpanBuilder)
        ensures
            r@ == (LlmSpanModel { presence_penalty: Some(penalty), ..self@ }),
    {
        LlmSpanBuilder { presence_penalty: Some(penalty), ..self }
    }

    /// Appends an input message; its position is its index.
    pub fn input_message(self, role: &str, content: &str) -> (r: LlmSpanBuilder)
        ensures
            r@ == (LlmSpanModel {
                input_messages: self@.input_messages.push((role@, content@)),
                ..self@
            }),
    {
        let mut input_messages = self.input_messages;
        let ghost before = input_messages.deep_view();
        input_messages.push((String::from_str(role), String::from_str(content)));
        assert(input_messages.deep_view() =~= before.push((role@, content@)));
        LlmSpanBuilder { input_messages, ..self }
    }

    /// Sets the invocation parameters, a JSON text.
    pub fn invocation_parameters(self, params: &str) -> (r: LlmSpanBuilder)
        ensures
            r@ == (LlmSpanModel { invocation_parameters: Some(params@), ..self@ }),
    {
        LlmSpanBuilder { invocation_parameters: Some(String::from_str(params)), ..self }
    }

    /// Appends a completion prompt.
    pub fn prompt(self, text: &str) -> (r: LlmSpanBuilder)
        ensures
            r@ == (LlmSpanModel { prompts: self@.prompts.push(text@), ..self@ }),
    {
        let mut prompts = self.prompts;
        let ghost before = prompts.deep_view();
        prompts.push(String::from_str(text));
        assert(prompts.deep_view() =~= before.push(text@));
        LlmSpanBuilder { prompts, ..self }
    }

    /// Appends a tool available to the model, by its JSON schema.
    pub fn tool(self, json_schema: &str) -> (r: LlmSpanBuilder)
        ensures
            r@ == (LlmSpanModel { tools: self@.tools.push(json_schema@), ..self@ }),
    {
        let mut tools = self.tools;
        let ghost before = tools.deep_view();
        tools.push(String::from_str(json_schema));
        assert(tools.deep_view() =~= before.push(json_schema@));
        LlmSpanBuilder { tools, ..self }
    }

    fn write_primary(&self, rec: &mut SpanRecord)
        ensures
            final(rec)@ == (SpanModel {
                attributes: old(rec)@.attributes + llm_primary_attrs(self@),
                ..old(rec)@
            }),
    {
        let ghost m = self@;
        let ghost start = rec@.attributes;
        let cfg = self.config;
        rec.set_str(OPENINFERENCE_SPAN_KIND, SpanKind::Llm.as_str(), false);
        rec.set_str(LLM_MODEL_NAME, self.model_name.as_str(), false);
        let ghost a0 = seq![
            str_attr(OPENINFERENCE_SPAN_KIND@, kind_name(SpanKind::Llm)),
            str_attr(LLM_MODEL_NAME@, m.model_name),
        ];
        assert(rec@.attributes =~= start + a0);
        rec.set_opt_str(LLM_PROVIDER, &self.provider, false);
        let ghost a1 = a0 + opt_str(LLM_PROVIDER@, m.provider, false);
        assert(rec@.attributes =~= start + a1);
        rec.set_opt_str(LLM_SYSTEM, &self.system, false);
        let ghost a2 = a1 + opt_str(LLM_SYSTEM@, m.system, false);
        assert(rec@.attributes =~= start + a2);
        rec.set_opt_str(
            LLM_INVOCATION_PARAMETERS,
            &self.invocation_parameters,
            cfg.hide_llm_invocation_parameters,
        );
        let ghost a3 = a2 + opt_str(
            LLM_INVOCATION_PARAMETERS@,
            m.invocation_parameters,
            m.config.hide_llm_invocation_parameters,
        );
        assert(rec@.attributes =~= start + a3);
        assert(a3 == llm_scalar_attrs(m));
        write_input_messages(
            rec,
            &self.input_messages,
            cfg.should_hide_input_messages(),
            cfg.should_hide_input_text(),
        );
        let ghost a4 = a3 + input_message_attrs(
            m.input_messages,
            m.config.hides_input_messages(),
            m.config.hides_input_text(),
        );
        assert(rec@.attributes =~= start + a4);
        write_text_list(rec, TextList::PromptText, &self.prompts, cfg.should_hide_prompts());
        let ghost a5 = a4 + text_list_attrs(TextList::PromptText, m.prompts, m.config.hides_prompts());
        assert(rec@.attributes =~= start + a5);
        write_text_list(rec, TextList::ToolJsonSchema, &self.tools, false);
        let ghost a6 = a5 + text_list_attrs(TextList::ToolJsonSchema, m.tools, false);
        assert(rec@.attributes =~= start + a6);
        assert(a6 == llm_primary_attrs(m));
    }

    fn write_gen_ai(&self, rec: &mut SpanRecord)
        ensures
            final(rec)@ == (SpanModel {
                attributes: old(rec)@.attributes + llm_gen_ai_attrs(self@),
                ..old(rec)@
            }),
    {
        let ghost m = self@;
        let ghost start = rec@.attributes;
        rec.set_str(GEN_AI_REQUEST_MODEL, self.model_name.as_str(), false);
        let ghost a0 = seq![str_attr(GEN_AI_REQUEST_MODEL@, m.model_name)];
        assert(rec@.attributes =~= start + a0);
        rec.set_opt_str(GEN_AI_PROVIDER_NAME, &self.provider, false);
        let ghost a1 = a0 + opt_str(GEN_AI_PROVIDER_NAME@, m.provider, false);
        assert(rec@.attributes =~= start + a1);
        rec.set_opt_str(GEN_AI_SYSTEM, &self.system, false);
        let ghost a2 = a1 + opt_str(GEN_AI_SYSTEM@, m.system, false);
        assert(rec@.attributes =~= start + a2);
        rec.set_opt_float(GEN_AI_REQUEST_TEMPERATURE, self.temperature);
        let ghost a3 = a2 + opt_float(GEN_AI_REQUEST_TEMPERATURE@, m.temperature);
        assert(rec@.attributes =~= start + a3);
        rec.set_opt_float(GEN_AI_REQUEST_TOP_P, self.top_p);
        let ghost a4 = a3 + opt_float(GEN_AI_REQUEST_TOP_P@, m.top_p);
        assert(rec@.attributes =~= start + a4);
        rec.set_opt_int(GEN_AI_REQUEST_TOP_K, self.top_k);
        let ghost a5 = a4 + opt_int(GEN_AI_REQUEST_TOP_K@, m.top_k);
        assert(rec@.attributes =~= start + a5);
        rec.set_opt_int(GEN_AI_REQUEST_MAX_TOKENS, self.max_tokens);
        let ghost a6 = a5 + opt_int(GEN_AI_REQUEST_MAX_TOKENS@, m.max_tokens);
        assert(rec@.attributes =~= start + a6);
        rec.set_opt_float(GEN_AI_REQUEST_FREQUENCY_PENALTY, self.frequency_penalty);
        let ghost a7 = a6 + opt_float(GEN_AI_REQUEST_FREQUENCY_PENALTY@, m.frequency_penalty);
        assert(rec@.attributes =~= start + a7);
        rec.set_opt_float(GEN_AI_REQUEST_PRESENCE_PENALTY, self.presence_penalty);
        let ghost a8 = a7 + opt_float(GEN_AI_REQUEST_PRESENCE_PENALTY@, m.presence_penalty);
        assert(rec@.attributes =~= start + a8);
        assert(a8 == llm_gen_ai_attrs(m));
    }

    /// Finalizes into a span record.
    pub fn build(self) -> (r: SpanRecord)
        ensures
            r@ == llm_span(self@),
    {
        let name = SpanKind::Llm.span_name(self.model_name.as_str());
        let mut rec = SpanRecord::new(name, self.config.emit_gen_ai_attributes);
        self.write_primary(&mut rec);
        assert(rec@.attributes =~= llm_primary_attrs(self@));
        if self.config.emit_gen_ai_attributes {
            self.write_gen_ai(&mut rec);
        }
        rec
    }
}

} // verus!
