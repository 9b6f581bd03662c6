//! Attribute groups shared by several operation kinds: indexed message,
//! text and document lists, and input/output values.
use vstd::prelude::*;
use vstd::string::StringExecFns;
use crate::attributes::embedding::embeddings;
use crate::attributes::llm::{input_messages, prompts, tools};
use crate::attributes::reranker::{input_documents, output_documents};
use crate::attributes::retrieval::documents;
use crate::attributes::{INPUT_MIME_TYPE, INPUT_VALUE, OUTPUT_MIME_TYPE, OUTPUT_VALUE};
use crate::config::TraceConfig;
use crate::record::{opt_float, opt_str, redact, str_attr, AttributeModel, Float64, SpanModel, SpanRecord};

verus! {

/// A document retrieved or reranked: an optional id, its content and an
/// optional score.
#[derive(Debug, Clone, PartialEq)]
pub struct Document {
    pub id: Option<String>,
    pub content: String,
    pub score: Option<Float64>,
}

pub struct DocumentModel {
    pub id: Option<Seq<char>>,
    pub content: Seq<char>,
    pub score: Option<Float64>,
}

impl View for Document {
    type V = DocumentModel;

    open spec fn view(&self) -> DocumentModel {
        DocumentModel { id: self.id.deep_view(), content: self.content@, score: self.score }
    }
}

impl Document {
    /// A document with content only.
    pub fn new(content: &str) -> (r: Document)
        ensures
            r@ == (DocumentModel { id: None, content: content@, score: None }),
    {
        Document { id: None, content: String::from_str(content), score: None }
    }

    pub fn with_id(self, id: &str) -> (r: Document)
        ensures
            r@ == (DocumentModel { id: Some(id@), ..self@ }),
    {
        Document { id: Some(String::from_str(id)), ..self }
    }

    pub fn with_score(self, score: Float64) -> (r: Document)
        ensures
            r@ == (DocumentModel { score: Some(score), ..self@ }),
    {
        Document { score: Some(score), ..self }
    }
}

pub open spec fn documents_view(docs: Seq<Document>) -> Seq<DocumentModel> {
    docs.map_values(|d: Document| d@)
}

// ---------------------------------------------------------------------------
// Input messages
// ---------------------------------------------------------------------------

/// The role and content attributes of each message, in order; the role is
/// redacted when `hide_role`, the content when `hide_content`.
pub open spec fn input_message_attrs(
    msgs: Seq<(Seq<char>, Seq<char>)>,
    hide_role: bool,
    hide_content: bool,
) -> Seq<AttributeModel>
    decreases msgs.len(),
{
    if msgs.len() == 0 {
        Seq::empty()
    } else {
        let i = (msgs.len() - 1) as nat;
        input_message_attrs(msgs.drop_last(), hide_role, hide_content) + seq![
            str_attr(input_messages::role_key(i), redact(msgs.last().0, hide_role)),
            str_attr(input_messages::content_key(i), redact(msgs.last().1, hide_content)),
        ]
    }
}

/// Message `i` gives the attributes at positions `2i` (role) and `2i + 1`
/// (content).
pub proof fn lemma_input_message_layout(
    msgs: Seq<(Seq<char>, Seq<char>)>,
    hide_role: bool,
    hide_content: bool,
)
    ensures
        input_message_attrs(msgs, hide_role, hide_content).len() == 2 * msgs.len(),
        forall|i: int|
            0 <= i < msgs.len() ==> {
                &&& #[trigger] input_message_attrs(msgs, hide_role, hide_content)[2 * i]
                    == str_attr(input_messages::role_key(i as nat), redact(msgs[i].0, hide_role))
                &&& input_message_attrs(msgs, hide_role, hide_content)[2 * i + 1] == str_attr(
                    input_messages::content_key(i as nat),
                    redact(msgs[i].1, hide_content),
                )
            },
    decreases msgs.len(),
{
    if msgs.len() > 0 {
        let init = msgs.drop_last();
        lemma_input_message_layout(init, hide_role, hide_content);
        let a = input_message_attrs(msgs, hide_role, hide_content);
        let b = input_message_attrs(init, hide_role, hide_content);
        assert forall|i: int| 0 <= i < msgs.len() implies {
            &&& #[trigger] a[2 * i] == str_attr(
                input_messages::role_key(i as nat),
                redact(msgs[i].0, hide_role),
            )
            &&& a[2 * i + 1] == str_attr(
                input_messages::content_key(i as nat),
                redact(msgs[i].1, hide_content),
            )
        } by {
            if i < init.len() {
                assert(a[2 * i] == b[2 * i]);
                assert(a[2 * i + 1] == b[2 * i + 1]);
                assert(init[i] == msgs[i]);
            }
        }
    }
}

pub fn write_input_messages(
    rec: &mut SpanRecord,
    msgs: &Vec<(String, String)>,
    hide_role: bool,
    hide_content: bool,
)
    ensures
        final(rec)@ == (SpanModel {
            attributes: old(rec)@.attributes + input_message_attrs(
                msgs.deep_view(),
                hide_role,
                hide_content,
            ),
            ..old(rec)@
        }),
{
    let ghost start = rec@.attributes;
    let ghost all = msgs.deep_view();
    let mut i: usize = 0;
    assert(all.take(0) =~= Seq::<(Seq<char>, Seq<char>)>::empty());
    assert(start + input_message_attrs(all.take(0), hide_role, hide_content) =~= start);
    while i < msgs.len()
        invariant
            i <= msgs.len(),
            all == msgs.deep_view(),
            all.len() == msgs.len(),
            rec@ == (SpanModel {
                attributes: start + input_message_attrs(all.take(i as int), hide_role, hide_content),
                ..old(rec)@
            }),
        decreases msgs.len() - i,
    {
        let ghost before = rec@.attributes;
        let role_key = input_messages::role(i);
        rec.set_str(role_key.as_str(), msgs[i].0.as_str(), hide_role);
        let content_key = input_messages::content(i);
        rec.set_str(content_key.as_str(), msgs[i].1.as_str(), hide_content);
        assert(all.take(i + 1).drop_last() =~= all.take(i as int));
        assert(rec@.attributes =~= start + input_message_attrs(
            all.take(i + 1),
            hide_role,
            hide_content,
        ));
        i = i + 1;
    }
    assert(all.take(msgs.len() as int) =~= all);
}

// ---------------------------------------------------------------------------
// Indexed text lists
// ---------------------------------------------------------------------------

/// The repeated fields that hold one text per position.
#[derive(Debug, Clone, Copy, PartialEq, Eq, Structural)]
pub enum TextList {
    EmbeddingText,
    PromptText,
    ToolJsonSchema,
}

pub open spec fn text_list_key(list: TextList, i: nat) -> Seq<char> {
    match list {
        TextList::EmbeddingText => embeddings::text_key(i),
        TextList::PromptText => prompts::text_key(i),
        TextList::ToolJsonSchema => tools::json_schema_key(i),
    }
}

fn text_list_key_string(list: TextList, i: usize) -> (r: String)
    ensures
        r@ == text_list_key(list, i as nat),
{
    match list {
        TextList::EmbeddingText => embeddings::text(i),
        TextList::PromptText => prompts::text(i),
        TextList::ToolJsonSchema => tools::json_schema(i),
    }
}

/// One attribute per text, in order, redacted when `hidden`.
pub open spec fn text_list_attrs(list: TextList, texts: Seq<Seq<char>>, hidden: bool) -> Seq<
    AttributeModel,
>
    decreases texts.len(),
{
    if texts.len() == 0 {
        Seq::empty()
    } else {
        let i = (texts.len() - 1) as nat;
        text_list_attrs(list, texts.drop_last(), hidden) + seq![
            str_attr(text_list_key(list, i), redact(texts.last(), hidden)),
        ]
    }
}

/// Text `i` gives the attribute at position `i`.
pub proof fn lemma_text_list_layout(list: TextList, texts: Seq<Seq<char>>, hidden: bool)
    ensures
        text_list_attrs(list, texts, hidden).len() == texts.len(),
        forall|i: int|
            0 <= i < texts.len() ==> #[trigger] text_list_attrs(list, texts, hidden)[i]
                == str_attr(text_list_key(list, i as nat), redact(texts[i], hidden)),
    decreases texts.len(),
{
    if texts.len() > 0 {
        let init = texts.drop_last();
        lemma_text_list_layout(list, init, hidden);
        let a = text_list_attrs(list, texts, hidden);
        let b = text_list_attrs(list, init, hidden);
        assert forall|i: int| 0 <= i < texts.len() implies #[trigger] a[i] == str_attr(
            text_list_key(list, i as nat),
            redact(texts[i], hidden),
        ) by {
            if i < init.len() {
                assert(a[i] == b[i]);
                assert(init[i] == texts[i]);
            }
        }
    }
}

pub fn write_text_list(rec: &mut SpanRecord, list: TextList, texts: &Vec<String>, hidden: bool)
    ensures
        final(rec)@ == (SpanModel {
            attributes: old(rec)@.attributes + text_list_attrs(list, texts.deep_view(), hidden),
            ..old(rec)@
        }),
{
    let ghost start = rec@.attributes;
    let ghost all = texts.deep_view();
    let mut i: usize = 0;
    assert(all.take(0) =~= Seq::<Seq<char>>::empty());
    assert(start + text_list_attrs(list, all.take(0), hidden) =~= start);
    while i < texts.len()
        invariant
            i <= texts.len(),
            all == texts.deep_view(),
            all.len() == texts.len(),
            rec@ == (SpanModel {
                attributes: start + text_list_attrs(list, all.take(i as int), hidden),
                ..old(rec)@
            }),
        decreases texts.len() - i,
    {
        let key = text_list_key_string(list, i);
        rec.set_str(key.as_str(), texts[i].as_str(), hidden);
        assert(all.take(i + 1).drop_last() =~= all.take(i as int));
        assert(rec@.attributes =~= start + text_list_attrs(list, all.take(i + 1), hidden));
        i = i + 1;
    }
    assert(all.take(texts.len() as int) =~= all);
}

// ---------------------------------------------------------------------------
// Document lists
// ---------------------------------------------------------------------------

/// The repeated fields that hold documents.
#[derive(Debug, Clone, Copy, PartialEq, Eq, Structural)]
pub enum DocumentList {
    Retrieved,
    RerankerInput,
    RerankerOutput,
}

pub open spec fn document_id_key(list: DocumentList, i: nat) -> Seq<char> {
    match list {
        DocumentList::Retrieved => documents::id_key(i),
        DocumentList::RerankerInput => input_documents::id_key(i),
        DocumentList::RerankerOutput => output_documents::id_key(i),
    }
}

pub open spec fn document_content_key(list: DocumentList, i: nat) -> Seq<char> {
    match list {
        DocumentList::Retrieved => documents::content_key(i),
        DocumentList::RerankerInput => input_documents::content_key(i),
        DocumentList::RerankerOutput => output_documents::content_key(i),
    }
}

pub open spec fn document_score_key(list: DocumentList, i: nat) -> Seq<char> {
    match list {
        DocumentList::Retrieved => documents::score_key(i),
        DocumentList::RerankerInput => input_documents::score_key(i),
        DocumentList::RerankerOutput => output_documents::score_key(i),
    }
}

fn document_keys(list: DocumentList, i: usize) -> (r: (String, String, String))
    ensures
        r.0@ == document_id_key(list, i as nat),
        r.1@ == document_content_key(list, i as nat),
        r.2@ == document_score_key(list, i as nat),
{
    match list {
        DocumentList::Retrieved => (
            documents::id(i),
            documents::content(i),
            documents::score(i),
        ),
        DocumentList::RerankerInput => (
            input_documents::id(i),
            input_documents::content(i),
            input_documents::score(i),
        ),
        DocumentList::RerankerOutput => (
            output_documents::id(i),
            output_documents::content(i),
            output_documents::score(i),
        ),
    }
}

/// The attributes of the document at position `i`: its id when set, its
/// content, its score when set. Ids and scores are metadata and are never
/// redacted.
pub open spec fn document_attrs(list: DocumentList, i: nat, d: DocumentModel) -> Seq<AttributeModel> {
    opt_str(document_id_key(list, i), d.id, false) + seq![
        str_attr(document_content_key(list, i), d.content),
    ] + opt_float(document_score_key(list, i), d.score)
}

/// The attributes of each document, in order.
pub open spec fn document_list_attrs(list: DocumentList, docs: Seq<DocumentModel>) -> Seq<
    AttributeModel,
>
    decreases docs.len(),
{
    if docs.len() == 0 {
        Seq::empty()
    } else {
        document_list_attrs(list, docs.drop_last()) + document_attrs(
            list,
            (docs.len() - 1) as nat,
            docs.last(),
        )
    }
}

pub fn write_document_list(rec: &mut SpanRecord, list: DocumentList, docs: &Vec<Document>)
    ensures
        final(rec)@ == (SpanModel {
            attributes: old(rec)@.attributes + document_list_attrs(list, documents_view(docs@)),
            ..old(rec)@
        }),
{
    let ghost start = rec@.attributes;
    let ghost all = documents_view(docs@);
    let mut i: usize = 0;
    assert(all.take(0) =~= Seq::<DocumentModel>::empty());
    assert(start + document_list_attrs(list, all.take(0)) =~= start);
    while i < docs.len()
        invariant
            i <= docs.len(),
            all == documents_view(docs@),
            all.len() == docs.len(),
            rec@ == (SpanModel {
                attributes: start + document_list_attrs(list, all.take(i as int)),
                ..old(rec)@
            }),
        decreases docs.len() - i,
    {
        let ghost before = rec@.attributes;
        let d = &docs[i];
        let keys = document_keys(list, i);
        rec.set_opt_str(keys.0.as_str(), &d.id, false);
        rec.set_str(keys.1.as_str(), d.content.as_str(), false);
        rec.set_opt_float(keys.2.as_str(), d.score);
        assert(rec@.attributes =~= before + document_attrs(list, i as nat, all[i as int]));
        assert(all.take(i + 1).drop_last() =~= all.take(i as int));
        assert(rec@.attributes =~= start + document_list_attrs(list, all.take(i + 1)));
        i = i + 1;
    }
    assert(all.take(docs.len() as int) =~= all);
}

// ---------------------------------------------------------------------------
// Input and output values
// ---------------------------------------------------------------------------

/// The input and output values of an operation with their MIME types. The
/// values are redacted by `hide_inputs` and `hide_outputs`; MIME types are
/// metadata and are never redacted.
pub open spec fn io_attrs(
    input: Option<Seq<char>>,
    input_mime_type: Option<Seq<char>>,
    output: Option<Seq<char>>,
    output_mime_type: Option<Seq<char>>,
    config: TraceConfig,
) -> Seq<AttributeModel> {
    opt_str(INPUT_VALUE@, input, config.hide_inputs) + opt_str(
        INPUT_MIME_TYPE@,
        input_mime_type,
        false,
    ) + opt_str(OUTPUT_VALUE@, output, config.hide_outputs) + opt_str(
        OUTPUT_MIME_TYPE@,
        output_mime_type,
        false,
    )
}

pub fn write_io(
    rec: &mut SpanRecord,
    input: &Option<String>,
    input_mime_type: &Option<String>,
    output: &Option<String>,
    output_mime_type: &Option<String>,
    config: &TraceConfig,
)
    ensures
        final(rec)@ == (SpanModel {
            attributes: old(rec)@.attributes + io_attrs(
                input.deep_view(),
                input_mime_type.deep_view(),
                output.deep_view(),
                output_mime_type.deep_view(),
                *config,
            ),
            ..old(rec)@
        }),
{
    rec.set_opt_str(INPUT_VALUE, input, config.hide_inputs);
    rec.set_opt_str(INPUT_MIME_TYPE, input_mime_type, false);
    rec.set_opt_str(OUTPUT_VALUE, output, config.hide_outputs);
    rec.set_opt_str(OUTPUT_MIME_TYPE, output_mime_type, false);
    assert(final(rec)@.attributes =~= old(rec)@.attributes + io_attrs(
        input.deep_view(),
        input_mime_type.deep_view(),
        output.deep_view(),
        output_mime_type.deep_view(),
        *config,
    ));
}

} // verus!
