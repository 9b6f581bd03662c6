//! Builders for the operation kinds other than LLM calls. Each collects
//! optional fields and finalizes into a span record whose attributes follow
//! the configuration's redaction decisions.
use vstd::prelude::*;
use vstd::string::StringExecFns;
use crate::attributes::{
    AGENT_NAME, EMBEDDING_MODEL_NAME, INPUT_VALUE, OPENINFERENCE_SPAN_KIND, RERANKER_MODEL_NAME,
    RERANKER_QUERY, RERANKER_TOP_K, TOOL_DESCRIPTION, TOOL_NAME, TOOL_PARAMETERS,
};
use crate::config::{default_config, TraceConfig};
use crate::fields::{
    document_list_attrs, documents_view, io_attrs, text_list_attrs, write_document_list, write_io,
    write_text_list, Document, DocumentList, DocumentModel, TextList,
};
use crate::record::{opt_int, opt_str, str_attr, AttributeModel, SpanModel, SpanRecord};
use crate::span_kind::{kind_name, span_name, SpanKind};

verus! {

/// Switches of the earlier, coarser configuration: dual emission, and
/// whether content is recorded at all.
#[derive(Debug, Clone, Copy)]
pub struct SpanConfig {
    pub emit_gen_ai_attributes: bool,
    pub record_content: bool,
}

impl Default for SpanConfig {
    /// Dual emission on, content not recorded.
    fn default() -> (r: SpanConfig)
        ensures
            r.emit_gen_ai_attributes && !r.record_content,
    {
        SpanConfig { emit_gen_ai_attributes: true, record_content: false }
    }
}

/// The attribute that names the kind of a span.
pub open spec fn kind_attr(k: SpanKind) -> AttributeModel {
    str_attr(OPENINFERENCE_SPAN_KIND@, kind_name(k))
}

fn new_record(kind: SpanKind, name: &str, config: &TraceConfig) -> (r: SpanRecord)
    ensures
        r@ == (SpanModel {
            name: span_name(kind, name@),
            attributes: seq![kind_attr(kind)],
            emit_gen_ai: config.emit_gen_ai_attributes,
        }),
{
    let mut rec = SpanRecord::new(kind.span_name(name), config.emit_gen_ai_attributes);
    rec.set_str(OPENINFERENCE_SPAN_KIND, kind.as_str(), false);
    assert(rec@.attributes =~= seq![kind_attr(kind)]);
    rec
}

// ===========================================================================
// Embedding
// ===========================================================================

/// What an embedding builder holds.
pub struct EmbeddingSpanModel {
    pub model_name: Seq<char>,
    pub texts: Seq<Seq<char>>,
    pub config: TraceConfig,
}

/// The span an embedding builder finalizes into: the kind, the model name,
/// then each text, redacted when embedding texts are hidden.
pub open spec fn embedding_span(m: EmbeddingSpanModel) -> SpanModel {
    SpanModel {
        name: span_name(SpanKind::Embedding, m.model_name),
        attributes: seq![
            kind_attr(SpanKind::Embedding),
            str_attr(EMBEDDING_MODEL_NAME@, m.model_name),
        ] + text_list_attrs(TextList::EmbeddingText, m.texts, m.config.hide_embeddings_text),
        emit_gen_ai: m.config.emit_gen_ai_attributes,
    }
}

/// Builder for spans of embedding computations.
#[derive(Debug, Clone)]
pub struct EmbeddingSpanBuilder {
    model_name: String,
    texts: Vec<String>,
    config: TraceConfig,
}

impl View for EmbeddingSpanBuilder {
    type V = EmbeddingSpanModel;

    closed spec fn view(&self) -> EmbeddingSpanModel {
        EmbeddingSpanModel {
            model_name: self.model_name@,
            texts: self.texts.deep_view(),
            config: self.config,
        }
    }
}

impl EmbeddingSpanBuilder {
    pub fn new(model_name: &str) -> (r: EmbeddingSpanBuilder)
        ensures
            r@ == (EmbeddingSpanModel {
                model_name: model_name@,
                texts: Seq::empty(),
                config: default_config(),
            }),
    {
        let r = EmbeddingSpanBuilder {
            model_name: String::from_str(model_name),
            texts: Vec::new(),
            config: TraceConfig::default(),
        };
        assert(r.texts.deep_view() =~= Seq::<Seq<char>>::empty());
        r
    }

    /// Replaces the configuration.
    pub fn config(self, config: TraceConfig) -> (r: EmbeddingSpanBuilder)
        ensures
            r@ == (EmbeddingSpanModel { config, ..self@ }),
    {
        EmbeddingSpanBuilder { config, ..self }
    }

    /// Appends a text to embed.
    pub fn text(self, text: &str) -> (r: EmbeddingSpanBuilder)
        ensures
            r@ == (EmbeddingSpanModel { texts: self@.texts.push(text@), ..self@ }),
    {
        let mut texts = self.texts;
        let ghost before = texts.deep_view();
        texts.push(String::from_str(text));
        assert(texts.deep_view() =~= before.push(text@));
        EmbeddingSpanBuilder { texts, ..self }
    }

    /// Appends several texts to embed, in order.
    pub fn texts(self, more: Vec<&str>) -> (r: EmbeddingSpanBuilder)
        ensures
            r@ == (EmbeddingSpanModel {
                texts: self@.texts + more@.map_values(|t: &str| t@),
                ..self@
            }),
    {
        let ghost start = self@.texts;
        let ghost added = more@.map_values(|t: &str| t@);
        let mut texts = self.texts;
        let mut i: usize = 0;
        assert(start + added.take(0) =~= start);
        while i < more.len()
            invariant
                i <= more.len(),
                added == more@.map_values(|t: &str| t@),
                texts.deep_view() == start + added.take(i as int),
            decreases more.len() - i,
        {
            let ghost before = texts.deep_view();
            texts.push(String::from_str(more[i]));
            assert(texts.deep_view() =~= before.push(more[i as int]@));
            assert(start + added.take(i + 1) =~= (start + added.take(i as int)).push(more[i as int]@));
            i = i + 1;
        }
        assert(added.take(more.len() as int) =~= added);
        EmbeddingSpanBuilder { texts, ..self }
    }

    /// Finalizes into a span record.
    pub fn build(self) -> (r: SpanRecord)
        ensures
            r@ == embedding_span(self@),
    {
        let mut rec = new_record(SpanKind::Embedding, self.model_name.as_str(), &self.config);
        rec.set_str(EMBEDDING_MODEL_NAME, self.model_name.as_str(), false);
        write_text_list(
            &mut rec,
            TextList::EmbeddingText,
            &self.texts,
            self.config.hide_embeddings_text,
        );
        assert(rec@.attributes =~= embedding_span(self@).attributes);
        rec
    }
}

// ===========================================================================
// Tool
// ===========================================================================

/// What a tool builder holds.
pub struct ToolSpanModel {
    pub name: Seq<char>,
    pub description: Option<Seq<char>>,
    pub parameters: Option<Seq<char>>,
    pub config: TraceConfig,
}

/// The span a tool builder finalizes into: the kind, the tool's name, its
/// description and parameter schema when set.
pub open spec fn tool_span(m: ToolSpanModel) -> SpanModel {
    SpanModel {
        name: span_name(SpanKind::Tool, m.name),
        attributes: seq![kind_attr(SpanKind::Tool), str_attr(TOOL_NAME@, m.name)] + opt_str(
            TOOL_DESCRIPTION@,
            m.description,
            false,
        ) + opt_str(TOOL_PARAMETERS@, m.parameters, false),
        emit_gen_ai: m.config.emit_gen_ai_attributes,
    }
}

/// Builder for spans of tool calls.
#[derive(Debug, Clone)]
pub struct ToolSpanBuilder {
    name: String,
    description: Option<String>,
    parameters: Option<String>,
    config: TraceConfig,
}

impl View for ToolSpanBuilder {
    type V = ToolSpanModel;

    closed spec fn view(&self) -> ToolSpanModel {
        ToolSpanModel {
            name: self.name@,
            description: self.description.deep_view(),
            parameters: self.parameters.deep_view(),
            config: self.config,
        }
    }
}

impl ToolSpanBuilder {
    pub fn new(name: &str) -> (r: ToolSpanBuilder)
        ensures
            r@ == (ToolSpanModel {
                name: name@,
                description: None,
                parameters: None,
                config: default_config(),
            }),
    {
        ToolSpanBuilder {
            name: String::from_str(name),
            description: None,
            parameters: None,
            config: TraceConfig::default(),
        }
    }

    /// Replaces the configuration.
    pub fn config(self, config: TraceConfig) -> (r: ToolSpanBuilder)
        ensures
            r@ == (ToolSpanModel { config, ..self@ }),
    {
        ToolSpanBuilder { config, ..self }
    }

    pub fn description(self, description: &str) -> (r: ToolSpanBuilder)
        ensures
            r@ == (ToolSpanModel { description: Some(description@), ..self@ }),
    {
        ToolSpanBuilder { description: Some(String::from_str(description)), ..self }
    }

    /// Sets the parameters, a JSON text.
    pub fn parameters(self, parameters: &str) -> (r: ToolSpanBuilder)
        ensures
            r@ == (ToolSpanModel { parameters: Some(parameters@), ..self@ }),
    {
        ToolSpanBuilder { parameters: Some(String::from_str(parameters)), ..self }
    }

    /// Finalizes into a span record.
    pub fn build(self) -> (r: SpanRecord)
        ensures
            r@ == tool_span(self@),
    {
        let mut rec = new_record(SpanKind::Tool, self.name.as_str(), &self.config);
        rec.set_str(TOOL_NAME, self.name.as_str(), false);
        rec.set_opt_str(TOOL_DESCRIPTION, &self.description, false);
        rec.set_opt_str(TOOL_PARAMETERS, &self.parameters, false);
        assert(rec@.attributes =~= tool_span(self@).attributes);
        rec
    }
}

// ===========================================================================
// Retriever
// ===========================================================================

/// What a retriever builder holds.
pub struct RetrieverSpanModel {
    pub name: Seq<char>,
    pub query: Option<Seq<char>>,
    pub top_k: Option<i64>,
    pub config: TraceConfig,
}

/// The span a retriever builder finalizes into: the kind, then the query as
/// the input value, redacted when inputs are hidden. The number of documents
/// asked for has no key in the vocabulary and stays on the builder.
pub open spec fn retriever_span(m: RetrieverSpanModel) -> SpanModel {
    SpanModel {
        name: span_name(SpanKind::Retriever, m.name),
        attributes: seq![kind_attr(SpanKind::Retriever)] + opt_str(
            INPUT_VALUE@,
            m.query,
            m.config.hide_inputs,
        ),
        emit_gen_ai: m.config.emit_gen_ai_attributes,
    }
}

/// Builder for spans of document retrieval.
#[derive(Debug, Clone)]
pub struct RetrieverSpanBuilder {
    name: String,
    query: Option<String>,
    top_k: Option<i64>,
    config: TraceConfig,
}

impl View for RetrieverSpanBuilder {
    type V = RetrieverSpanModel;

    closed spec fn view(&self) -> RetrieverSpanModel {
        RetrieverSpanModel {
            name: self.name@,
            query: self.query.deep_view(),
            top_k: self.top_k,
            config: self.config,
        }
    }
}

impl RetrieverSpanBuilder {
    pub fn new(name: &str) -> (r: RetrieverSpanBuilder)
        ensures
            r@ == (RetrieverSpanModel {
                name: name@,
                query: None,
                top_k: None,
                config: default_config(),
            }),
    {
        RetrieverSpanBuilder {
            name: String::from_str(name),
            query: None,
            top_k: None,
            config: TraceConfig::default(),
        }
    }

    /// Replaces the configuration.
    pub fn config(self, config: TraceConfig) -> (r: RetrieverSpanBuilder)
        ensures
            r@ == (RetrieverSpanModel { config, ..self@ }),
    {
        RetrieverSpanBuilder { config, ..self }
    }

    pub fn query(self, query: &str) -> (r: RetrieverSpanBuilder)
        ensures
            r@ == (RetrieverSpanModel { query: Some(query@), ..self@ }),
    {
        RetrieverSpanBuilder { query: Some(String::from_str(query)), ..self }
    }

    pub fn top_k(self, top_k: i64) -> (r: RetrieverSpanBuilder)
        ensures
            r@ == (RetrieverSpanModel { top_k: Some(top_k), ..self@ }),
    {
        RetrieverSpanBuilder { top_k: Some(top_k), ..self }
    }

    /// Finalizes into a span record.
    pub fn build(self) -> (r: SpanRecord)
        ensures
            r@ == retriever_span(self@),
    {
        let mut rec = new_record(SpanKind::Retriever, self.name.as_str(), &self.config);
        rec.set_opt_str(INPUT_VALUE, &self.query, self.config.hide_inputs);
        rec
    }
}

// ===========================================================================
// Reranker
// ===========================================================================

/// What a reranker builder holds.
pub struct RerankerSpanModel {
    pub model_name: Seq<char>,
    pub query: Option<Seq<char>>,
    pub top_k: Option<i64>,
    pub input_documents: Seq<DocumentModel>,
    pub config: TraceConfig,
}

/// The span a reranker builder finalizes into: the kind, the model name, the
/// query (redacted when inputs are hidden), the number of documents asked
/// for, then each input document.
pub open spec fn reranker_span(m: RerankerSpanModel) -> SpanModel {
    SpanModel {
        name: span_name(SpanKind::Reranker, m.model_name),
        attributes: seq![
            kind_attr(SpanKind::Reranker),
            str_attr(RERANKER_MODEL_NAME@, m.model_name),
        ] + opt_str(RERANKER_QUERY@, m.query, m.config.hide_inputs) + opt_int(
            RERANKER_TOP_K@,
            m.top_k,
        ) + document_list_attrs(DocumentList::RerankerInput, m.input_documents),
        emit_gen_ai: m.config.emit_gen_ai_attributes,
    }
}

/// Builder for spans of document reranking.
#[derive(Debug, Clone)]
pub struct RerankerSpanBuilder {
    model_name: String,
    query: Option<String>,
    top_k: Option<i64>,
    input_documents: Vec<Document>,
    config: TraceConfig,
}

impl View for RerankerSpanBuilder {
    type V = RerankerSpanModel;

    closed spec fn view(&self) -> RerankerSpanModel {
        RerankerSpanModel {
            model_name: self.model_name@,
            query: self.query.deep_view(),
            top_k: self.top_k,
            input_documents: documents_view(self.input_documents@),
            config: self.config,
        }
    }
}

impl RerankerSpanBuilder {
    pub fn new(model_name: &str) -> (r: RerankerSpanBuilder)
        ensures
            r@ == (RerankerSpanModel {
                model_name: model_name@,
                query: None,
                top_k: None,
                input_documents: Seq::empty(),
                config: default_config(),
            }),
    {
        let r = RerankerSpanBuilder {
            model_name: String::from_str(model_name),
            query: None,
            top_k: None,
            input_documents: Vec::new(),
            config: TraceConfig::default(),
        };
        assert(documents_view(r.input_documents@) =~= Seq::<DocumentModel>::empty());
        r
    }

    /// Replaces the configuration.
    pub fn config(self, config: TraceConfig) -> (r: RerankerSpanBuilder)
        ensures
            r@ == (RerankerSpanModel { config, ..self@ }),
    {
        RerankerSpanBuilder { config, ..self }
    }

    pub fn query(self, query: &str) -> (r: RerankerSpanBuilder)
        ensures
            r@ == (RerankerSpanModel { query: Some(query@), ..self@ }),
    {
        RerankerSpanBuilder { query: Some(String::from_str(query)), ..self }
    }

    pub fn top_k(self, top_k: i64) -> (r: RerankerSpanBuilder)
        ensures
            r@ == (RerankerSpanModel { top_k: Some(top_k), ..self@ }),
    {
        RerankerSpanBuilder { top_k: Some(top_k), ..self }
    }

    /// Appends an input document.
    pub fn input_document(self, document: Document) -> (r: RerankerSpanBuilder)
        ensures
            r@ == (RerankerSpanModel {
                input_documents: self@.input_documents.push(document@),
                ..self@
            }),
    {
        let mut input_documents = self.input_documents;
        let ghost before = input_documents@;
        let ghost d = document@;
        input_documents.push(document);
        assert(documents_view(input_documents@) =~= documents_view(before).push(d));
        RerankerSpanBuilder { input_documents, ..self }
    }

    /// Finalizes into a span record.
    pub fn build(self) -> (r: SpanRecord)
        ensures
            r@ == reranker_span(self@),
    {
        let ghost m = self@;
        let mut rec = new_record(SpanKind::Reranker, self.model_name.as_str(), &self.config);
        rec.set_str(RERANKER_MODEL_NAME, self.model_name.as_str(), false);
        rec.set_opt_str(RERANKER_QUERY, &self.query, self.config.hide_inputs);
        rec.set_opt_int(RERANKER_TOP_K, self.top_k);
        let ghost a = seq![
            kind_attr(SpanKind::Reranker),
            str_attr(RERANKER_MODEL_NAME@, m.model_name),
        ] + opt_str(RERANKER_QUERY@, m.query, m.config.hide_inputs) + opt_int(
            RERANKER_TOP_K@,
            m.top_k,
        );
        assert(rec@.attributes =~= a);
        write_document_list(&mut rec, DocumentList::RerankerInput, &self.input_documents);
        rec
    }
}

// ===========================================================================
// Kinds recorded by their input and output values
// ===========================================================================

/// What a chain, agent, guardrail or evaluator builder holds.
pub struct IoSpanModel {
    pub name: Seq<char>,
    pub input: Option<Seq<char>>,
    pub input_mime_type: Option<Seq<char>>,
    pub output: Option<Seq<char>>,
    pub output_mime_type: Option<Seq<char>>,
    pub config: TraceConfig,
}

/// The identity attribute of a kind recorded by its values, if it has one.
pub open spec fn identity_attrs(kind: SpanKind, name: Seq<char>) -> Seq<AttributeModel> {
    if kind == SpanKind::Agent {
        seq![str_attr(AGENT_NAME@, name)]
    } else {
        Seq::empty()
    }
}

/// The span such a builder finalizes into: the kind, the identity attribute
/// where the kind has one, then the input and output values with their MIME
/// types; the values are redacted by `hide_inputs` and `hide_outputs`.
pub open spec fn io_span(kind: SpanKind, m: IoSpanModel) -> SpanModel {
    SpanModel {
        name: span_name(kind, m.name),
        attributes: seq![kind_attr(kind)] + identity_attrs(kind, m.name) + io_attrs(
            m.input,
            m.input_mime_type,
            m.output,
            m.output_mime_type,
            m.config,
        ),
        emit_gen_ai: m.config.emit_gen_ai_attributes,
    }
}

fn build_io_span(
    kind: SpanKind,
    name: &String,
    input: &Option<String>,
    input_mime_type: &Option<String>,
    output: &Option<String>,
    output_mime_type: &Option<String>,
    config: &TraceConfig,
) -> (r: SpanRecord)
    ensures
        r@ == io_span(
            kind,
            IoSpanModel {
                name: name@,
                input: input.deep_view(),
                input_mime_type: input_mime_type.deep_view(),
                output: output.deep_view(),
                output_mime_type: output_mime_type.deep_view(),
                config: *config,
            },
        ),
{
    let mut rec = new_record(kind, name.as_str(), config);
    if kind == SpanKind::Agent {
        rec.set_str(AGENT_NAME, name.as_str(), false);
    }
    assert(rec@.attributes =~= seq![kind_attr(kind)] + identity_attrs(kind, name@));
    write_io(&mut rec, input, input_mime_type, output, output_mime_type, config);
    rec
}

// ---------------------------------------------------------------------------
// Chain
// ---------------------------------------------------------------------------

/// Builder for spans of steps that link other steps of an application.
#[derive(Debug, Clone)]
pub struct ChainSpanBuilder {
    name: String,
    input: Option<String>,
    input_mime_type: Option<String>,
    output: Option<String>,
    output_mime_type: Option<String>,
    config: TraceConfig,
}

impl View for ChainSpanBuilder {
    type V = IoSpanModel;

    closed spec fn view(&self) -> IoSpanModel {
        IoSpanModel {
            name: self.name@,
            input: self.input.deep_view(),
            input_mime_type: self.input_mime_type.deep_view(),
            output: self.output.deep_view(),
            output_mime_type: self.output_mime_type.deep_view(),
            config: self.config,
        }
    }
}

impl ChainSpanBuilder {
    pub fn new(name: &str) -> (r: ChainSpanBuilder)
        ensures
            r@ == (IoSpanModel {
                name: name@,
                input: None,
                input_mime_type: None,
                output: None,
                output_mime_type: None,
                config: default_config(),
            }),
    {
        ChainSpanBuilder {
            name: String::from_str(name),
            input: None,
            input_mime_type: None,
            output: None,
            output_mime_type: None,
            config: TraceConfig::default(),
        }
    }

    /// Replaces the configuration.
    pub fn config(self, config: TraceConfig) -> (r: ChainSpanBuilder)
        ensures
            r@ == (IoSpanModel { config, ..self@ }),
    {
        ChainSpanBuilder { config, ..self }
    }

    /// Sets the input value.
    pub fn input(self, value: &str) -> (r: ChainSpanBuilder)
        ensures
            r@ == (IoSpanModel { input: Some(value@), ..self@ }),
    {
        ChainSpanBuilder { input: Some(String::from_str(value)), ..self }
    }

    pub fn input_mime_type(self, mime_type: &str) -> (r: ChainSpanBuilder)
        ensures
            r@ == (IoSpanModel { input_mime_type: Some(mime_type@), ..self@ }),
    {
        ChainSpanBuilder { input_mime_type: Some(String::from_str(mime_type)), ..self }
    }

    /// Sets the output value.
    pub fn output(self, value: &str) -> (r: ChainSpanBuilder)
        ensures
            r@ == (IoSpanModel { output: Some(value@), ..self@ }),
    {
        ChainSpanBuilder { output: Some(String::from_str(value)), ..self }
    }

    pub fn output_mime_type(self, mime_type: &str) -> (r: ChainSpanBuilder)
        ensures
            r@ == (IoSpanModel { output_mime_type: Some(mime_type@), ..self@ }),
    {
        ChainSpanBuilder { output_mime_type: Some(String::from_str(mime_type)), ..self }
    }

    /// Finalizes into a span record.
    pub fn build(self) -> (r: SpanRecord)
        ensures
            r@ == io_span(SpanKind::Chain, self@),
    {
        build_io_span(
            SpanKind::Chain,
            &self.name,
            &self.input,
            &self.input_mime_type,
            &self.output,
            &self.output_mime_type,
            &self.config,
        )
    }
}

// ---------------------------------------------------------------------------
// Agent
// ---------------------------------------------------------------------------

/// Builder for spans of agent reasoning blocks.
#[derive(Debug, Clone)]
pub struct AgentSpanBuilder {
    name: String,
    input: Option<String>,
    input_mime_type: Option<String>,
    output: Option<String>,
    output_mime_type: Option<String>,
    config: TraceConfig,
}

impl View for AgentSpanBuilder {
    type V = IoSpanModel;

    closed spec fn view(&self) -> IoSpanModel {
        IoSpanModel {
            name: self.name@,
            input: self.input.deep_view(),
            input_mime_type: self.input_mime_type.deep_view(),
            output: self.output.deep_view(),
            output_mime_type: self.output_mime_type.deep_view(),
            config: self.config,
        }
    }
}

impl AgentSpanBuilder {
    pub fn new(name: &str) -> (r: AgentSpanBuilder)
        ensures
            r@ == (IoSpanModel {
                name: name@,
                input: None,
                input_mime_type: None,
                output: None,
                output_mime_type: None,
                config: default_config(),
            }),
    {
        AgentSpanBuilder {
            name: String::from_str(name),
            input: None,
            input_mime_type: None,
            output: None,
            output_mime_type: None,
            config: TraceConfig::default(),
        }
    }

    /// Replaces the configuration.
    pub fn config(self, config: TraceConfig) -> (r: AgentSpanBuilder)
        ensures
            r@ == (IoSpanModel { config, ..self@ }),
    {
        AgentSpanBuilder { config, ..self }
    }

    /// Sets the input value.
    pub fn input(self, value: &str) -> (r: AgentSpanBuilder)
        ensures
            r@ == (IoSpanModel { input: Some(value@), ..self@ }),
    {
        AgentSpanBuilder { input: Some(String::from_str(value)), ..self }
    }

    pub fn input_mime_type(self, mime_type: &str) -> (r: AgentSpanBuilder)
        ensures
            r@ == (IoSpanModel { input_mime_type: Some(mime_type@), ..self@ }),
    {
        AgentSpanBuilder { input_mime_type: Some(String::from_str(mime_type)), ..self }
    }

    /// Sets the output value.
    pub fn output(self, value: &str) -> (r: AgentSpanBuilder)
        ensures
            r@ == (IoSpanModel { output: Some(value@), ..self@ }),
    {
        AgentSpanBuilder { output: Some(String::from_str(value)), ..self }
    }

    pub fn output_mime_type(self, mime_type: &str) -> (r: AgentSpanBuilder)
        ensures
            r@ == (IoSpanModel { output_mime_type: Some(mime_type@), ..self@ }),
    {
        AgentSpanBuilder { output_mime_type: Some(String::from_str(mime_type)), ..self }
    }

    /// Finalizes into a span record.
    pub fn build(self) -> (r: SpanRecord)
        ensures
            r@ == io_span(SpanKind::Agent, self@),
    {
        build_io_span(
            SpanKind::Agent,
            &self.name,
            &self.input,
            &self.input_mime_type,
            &self.output,
            &self.output_mime_type,
            &self.config,
        )
    }
}

// ---------------------------------------------------------------------------
// Guardrail
// ---------------------------------------------------------------------------

/// Builder for spans of guardrail checks.
#[derive(Debug, Clone)]
pub struct GuardrailSpanBuilder {
    name: String,
    input: Option<String>,
    input_mime_type: Option<String>,
    output: Option<String>,
    output_mime_type: Option<String>,
    config: TraceConfig,
}

impl View for GuardrailSpanBuilder {
    type V = IoSpanModel;

    closed spec fn view(&self) -> IoSpanModel {
        IoSpanModel {
            name: self.name@,
            input: self.input.deep_view(),
            input_mime_type: self.input_mime_type.deep_view(),
            output: self.output.deep_view(),
            output_mime_type: self.output_mime_type.deep_view(),
            config: self.config,
        }
    }
}

impl GuardrailSpanBuilder {
    pub fn new(name: &str) -> (r: GuardrailSpanBuilder)
        ensures
            r@ == (IoSpanModel {
                name: name@,
                input: None,
                input_mime_type: None,
                output: None,
                output_mime_type: None,
                config: default_config(),
            }),
    {
        GuardrailSpanBuilder {
            name: String::from_str(name),
            input: None,
            input_mime_type: None,
            output: None,
            output_mime_type: None,
            config: TraceConfig::default(),
        }
    }

    /// Replaces the configuration.
    pub fn config(self, config: TraceConfig) -> (r: GuardrailSpanBuilder)
        ensures
            r@ == (IoSpanModel { config, ..self@ }),
    {
        GuardrailSpanBuilder { config, ..self }
    }

    /// Sets the input value.
    pub fn input(self, value: &str) -> (r: GuardrailSpanBuilder)
        ensures
            r@ == (IoSpanModel { input: Some(value@), ..self@ }),
    {
        GuardrailSpanBuilder { input: Some(String::from_str(value)), ..self }
    }

    pub fn input_mime_type(self, mime_type: &str) -> (r: GuardrailSpanBuilder)
        ensures
            r@ == (IoSpanModel { input_mime_type: Some(mime_type@), ..self@ }),
    {
        GuardrailSpanBuilder { input_mime_type: Some(String::from_str(mime_type)), ..self }
    }

    /// Sets the output value.
    pub fn output(self, value: &str) -> (r: GuardrailSpanBuilder)
        ensures
            r@ == (IoSpanModel { output: Some(value@), ..self@ }),
    {
        GuardrailSpanBuilder { output: Some(String::from_str(value)), ..self }
    }

    pub fn output_mime_type(self, mime_type: &str) -> (r: GuardrailSpanBuilder)
        ensures
            r@ == (IoSpanModel { output_mime_type: Some(mime_type@), ..self@ }),
    {
        GuardrailSpanBuilder { output_mime_type: Some(String::from_str(mime_type)), ..self }
    }

    /// Finalizes into a span record.
    pub fn build(self) -> (r: SpanRecord)
        ensures
            r@ == io_span(SpanKind::Guardrail, self@),
    {
        build_io_span(
            SpanKind::Guardrail,
            &self.name,
            &self.input,
            &self.input_mime_type,
            &self.output,
            &self.output_mime_type,
            &self.config,
        )
    }
}

// ---------------------------------------------------------------------------
// Evaluator
// ---------------------------------------------------------------------------

/// Builder for spans of evaluations of model outputs.
#[derive(Debug, Clone)]
pub struct EvaluatorSpanBuilder {
    name: String,
    input: Option<String>,
    input_mime_type: Option<String>,
    output: Option<String>,
    output_mime_type: Option<String>,
    config: TraceConfig,
}

impl View for EvaluatorSpanBuilder {
    type V = IoSpanModel;

    closed spec fn view(&self) -> IoSpanModel {
        IoSpanModel {
            name: self.name@,
            input: self.input.deep_view(),
            input_mime_type: self.input_mime_type.deep_view(),
            output: self.output.deep_view(),
            output_mime_type: self.output_mime_type.deep_view(),
            config: self.config,
        }
    }
}

impl EvaluatorSpanBuilder {
    pub fn new(name: &str) -> (r: EvaluatorSpanBuilder)
        ensures
            r@ == (IoSpanModel {
                name: name@,
                input: None,
                input_mime_type: None,
                output: None,
                output_mime_type: None,
                config: default_config(),
            }),
    {
        EvaluatorSpanBuilder {
            name: String::from_str(name),
            input: None,
            input_mime_type: None,
            output: None,
            output_mime_type: None,
            config: TraceConfig::default(),
        }
    }

    /// Replaces the configuration.
    pub fn config(self, config: TraceConfig) -> (r: EvaluatorSpanBuilder)
        ensures
            r@ == (IoSpanModel { config, ..self@ }),
    {
        EvaluatorSpanBuilder { config, ..self }
    }

    /// Sets the input value.
    pub fn input(self, value: &str) -> (r: EvaluatorSpanBuilder)
        ensures
            r@ == (IoSpanModel { input: Some(value@), ..self@ }),
    {
        EvaluatorSpanBuilder { input: Some(String::from_str(value)), ..self }
    }

    pub fn input_mime_type(self, mime_type: &str) -> (r: EvaluatorSpanBuilder)
        ensures
            r@ == (IoSpanModel { input_mime_type: Some(mime_type@), ..self@ }),
    {
        EvaluatorSpanBuilder { input_mime_type: Some(String::from_str(mime_type)), ..self }
    }

    /// Sets the output value.
    pub fn output(self, value: &str) -> (r: EvaluatorSpanBuilder)
        ensures
            r@ == (IoSpanModel { output: Some(value@), ..self@ }),
    {
        EvaluatorSpanBuilder { output: Some(String::from_str(value)), ..self }
    }

    pub fn output_mime_type(self, mime_type: &str) -> (r: EvaluatorSpanBuilder)
        ensures
            r@ == (IoSpanModel { output_mime_type: Some(mime_type@), ..self@ }),
    {
        EvaluatorSpanBuilder { output_mime_type: Some(String::from_str(mime_type)), ..self }
    }

    /// Finalizes into a span record.
    pub fn build(self) -> (r: SpanRecord)
        ensures
            r@ == io_span(SpanKind::Evaluator, self@),
    {
        build_io_span(
            SpanKind::Evaluator,
            &self.name,
            &self.input,
            &self.input_mime_type,
            &self.output,
            &self.output_mime_type,
            &self.config,
        )
    }
}

} // verus!
