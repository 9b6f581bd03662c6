use openinference::SpanKind;

#[test]
fn test_span_kind_as_str() {
    assert_eq!(SpanKind::Llm.as_str(), "LLM");
    assert_eq!(SpanKind::Embedding.as_str(), "EMBEDDING");
    assert_eq!(SpanKind::Chain.as_str(), "CHAIN");
    assert_eq!(SpanKind::Tool.as_str(), "TOOL");
    assert_eq!(SpanKind::Agent.as_str(), "AGENT");
    assert_eq!(SpanKind::Retriever.as_str(), "RETRIEVER");
    assert_eq!(SpanKind::Reranker.as_str(), "RERANKER");
    assert_eq!(SpanKind::Guardrail.as_str(), "GUARDRAIL");
    assert_eq!(SpanKind::Evaluator.as_str(), "EVALUATOR");
}

#[test]
fn test_span_kind_from_str() {
    assert_eq!(SpanKind::from_str("LLM"), Some(SpanKind::Llm));
    assert_eq!(SpanKind::from_str("llm"), Some(SpanKind::Llm));
    assert_eq!(SpanKind::from_str("Llm"), Some(SpanKind::Llm));
    assert_eq!(SpanKind::from_str("invalid"), None);
}

#[test]
fn test_span_kind_display() {
    assert_eq!(SpanKind::Llm.to_string(), "LLM");
    assert_eq!(SpanKind::Agent.to_string(), "AGENT");
}

#[test]
fn every_kind_parses_back_from_its_name() {
    let all = [
        SpanKind::Llm,
        SpanKind::Embedding,
        SpanKind::Chain,
        SpanKind::Tool,
        SpanKind::Agent,
        SpanKind::Retriever,
        SpanKind::Reranker,
        SpanKind::Guardrail,
        SpanKind::Evaluator,
    ];
    for k in all {
        assert_eq!(SpanKind::from_str(k.as_str()), Some(k));
        assert_eq!(SpanKind::from_str(k.lower_name()), Some(k));
        assert_eq!(SpanKind::from_uppercase(k.as_str()), Some(k));
    }
    assert_eq!(SpanKind::from_str("reRanker"), Some(SpanKind::Reranker));
    assert_eq!(SpanKind::from_str(""), None);
    assert_eq!(SpanKind::from_str("LLMs"), None);
    assert_eq!(SpanKind::from_uppercase("llm"), None);
}

#[test]
fn span_names_begin_with_the_lower_case_kind() {
    assert_eq!(SpanKind::Chain.span_name("pipeline"), "chain pipeline");
    assert_eq!(SpanKind::Guardrail.span_name(""), "guardrail ");
}
