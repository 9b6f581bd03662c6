//! The kinds of traced operation and their canonical names.
use vstd::prelude::*;
use vstd::string::StringExecFns;
use crate::text::text_eq;

verus! {

/// What `str::to_uppercase` makes of a string.
pub uninterp spec fn upper_of(s: Seq<char>) -> Seq<char>;

/// Relies on `str::to_uppercase`: the result depends on the characters of
/// the argument alone.
#[verifier::external_body]
fn uppercase(s: &str) -> (r: String)
    ensures
        r@ == upper_of(s@),
{
    s.to_uppercase()
}

/// The kind of operation a span records; its canonical name is the value of
/// the `openinference.span.kind` attribute.
#[derive(Debug, Clone, Copy, PartialEq, Eq, Structural, Hash)]
pub enum SpanKind {
    /// A call to a large language model.
    Llm,
    /// A call that computes embeddings.
    Embedding,
    /// A step that links other steps of an application.
    Chain,
    /// A call to a tool.
    Tool,
    /// A reasoning block that acts on tools under the guidance of a model.
    Agent,
    /// A fetch of documents from a store.
    Retriever,
    /// A reordering of documents by relevance.
    Reranker,
    /// A check on inputs or outputs.
    Guardrail,
    /// An evaluation of model outputs.
    Evaluator,
}

/// The canonical upper-case name of a kind.
pub open spec fn kind_name(k: SpanKind) -> Seq<char> {
    match k {
        SpanKind::Llm => "LLM"@,
        SpanKind::Embedding => "EMBEDDING"@,
        SpanKind::Chain => "CHAIN"@,
        SpanKind::Tool => "TOOL"@,
        SpanKind::Agent => "AGENT"@,
        SpanKind::Retriever => "RETRIEVER"@,
        SpanKind::Reranker => "RERANKER"@,
        SpanKind::Guardrail => "GUARDRAIL"@,
        SpanKind::Evaluator => "EVALUATOR"@,
    }
}

/// The kind whose canonical name is exactly `s`, if any.
pub open spec fn kind_named(s: Seq<char>) -> Option<SpanKind> {
    if s == "LLM"@ {
        Some(SpanKind::Llm)
    } else if s == "EMBEDDING"@ {
        Some(SpanKind::Embedding)
    } else if s == "CHAIN"@ {
        Some(SpanKind::Chain)
    } else if s == "TOOL"@ {
        Some(SpanKind::Tool)
    } else if s == "AGENT"@ {
        Some(SpanKind::Agent)
    } else if s == "RETRIEVER"@ {
        Some(SpanKind::Retriever)
    } else if s == "RERANKER"@ {
        Some(SpanKind::Reranker)
    } else if s == "GUARDRAIL"@ {
        Some(SpanKind::Guardrail)
    } else if s == "EVALUATOR"@ {
        Some(SpanKind::Evaluator)
    } else {
        None
    }
}

/// The lower-case name of a kind, which begins the names of its spans.
pub open spec fn kind_lower_name(k: SpanKind) -> Seq<char> {
    match k {
        SpanKind::Llm => "llm"@,
        SpanKind::Embedding => "embedding"@,
        SpanKind::Chain => "chain"@,
        SpanKind::Tool => "tool"@,
        SpanKind::Agent => "agent"@,
        SpanKind::Retriever => "retriever"@,
        SpanKind::Reranker => "reranker"@,
        SpanKind::Guardrail => "guardrail"@,
        SpanKind::Evaluator => "evaluator"@,
    }
}

/// The name of a span of kind `k` for the operation named `name`.
pub open spec fn span_name(k: SpanKind, name: Seq<char>) -> Seq<char> {
    kind_lower_name(k) + " "@ + name
}

impl SpanKind {
    /// The lower-case name.
    pub fn lower_name(&self) -> (r: &'static str)
        ensures
            r@ == kind_lower_name(*self),
    {
        match self {
            SpanKind::Llm => "llm",
            SpanKind::Embedding => "embedding",
            SpanKind::Chain => "chain",
            SpanKind::Tool => "tool",
            SpanKind::Agent => "agent",
            SpanKind::Retriever => "retriever",
            SpanKind::Reranker => "reranker",
            SpanKind::Guardrail => "guardrail",
            SpanKind::Evaluator => "evaluator",
        }
    }

    /// The name of a span of this kind for the operation named `name`:
    /// the lower-case kind name, a space, then `name`.
    pub fn span_name(&self, name: &str) -> (r: String)
        ensures
            r@ == span_name(*self, name@),
    {
        let mut s = String::from_str(self.lower_name());
        s.append(" ");
        s.append(name);
        s
    }

    /// The canonical upper-case name.
    pub fn as_str(&self) -> (r: &'static str)
        ensures
            r@ == kind_name(*self),
    {
        match self {
            SpanKind::Llm => "LLM",
            SpanKind::Embedding => "EMBEDDING",
            SpanKind::Chain => "CHAIN",
            SpanKind::Tool => "TOOL",
            SpanKind::Agent => "AGENT",
            SpanKind::Retriever => "RETRIEVER",
            SpanKind::Reranker => "RERANKER",
            SpanKind::Guardrail => "GUARDRAIL",
            SpanKind::Evaluator => "EVALUATOR",
        }
    }

    /// The canonical name as an owned string.
    pub fn to_string(&self) -> (r: String)
        ensures
            r@ == kind_name(*self),
    {
        String::from_str(self.as_str())
    }

    /// The kind whose canonical name is exactly `name` (already upper case).
    pub fn from_uppercase(name: &str) -> (r: Option<SpanKind>)
        ensures
            r == kind_named(name@),
    {
        if text_eq(name, "LLM") {
            Some(SpanKind::Llm)
        } else if text_eq(name, "EMBEDDING") {
            Some(SpanKind::Embedding)
        } else if text_eq(name, "CHAIN") {
            Some(SpanKind::Chain)
        } else if text_eq(name, "TOOL") {
            Some(SpanKind::Tool)
        } else if text_eq(name, "AGENT") {
            Some(SpanKind::Agent)
        } else if text_eq(name, "RETRIEVER") {
            Some(SpanKind::Retriever)
        } else if text_eq(name, "RERANKER") {
            Some(SpanKind::Reranker)
        } else if text_eq(name, "GUARDRAIL") {
            Some(SpanKind::Guardrail)
        } else if text_eq(name, "EVALUATOR") {
            Some(SpanKind::Evaluator)
        } else {
            None
        }
    }

    /// Parses a kind name without regard to case; `None` for any other text.
    pub fn from_str(s: &str) -> (r: Option<SpanKind>)
        ensures
            r == kind_named(upper_of(s@)),
    {
        let upper = uppercase(s);
        SpanKind::from_uppercase(upper.as_str())
    }
}

} // verus!
