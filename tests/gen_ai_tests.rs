use openinference::attributes::{LLM_MODEL_NAME, LLM_TOKEN_COUNT_PROMPT};
use openinference::gen_ai::{
    map_gen_ai_to_openinference, map_openinference_to_gen_ai, GEN_AI_REQUEST_MODEL,
    GEN_AI_USAGE_INPUT_TOKENS,
};

#[test]
fn test_attribute_mapping_roundtrip() {
    // OpenInference -> GenAI
    assert_eq!(
        map_openinference_to_gen_ai("llm.model_name"),
        Some(GEN_AI_REQUEST_MODEL)
    );
    assert_eq!(
        map_openinference_to_gen_ai("llm.token_count.prompt"),
        Some(GEN_AI_USAGE_INPUT_TOKENS)
    );

    // GenAI -> OpenInference
    assert_eq!(
        map_gen_ai_to_openinference("gen_ai.request.model"),
        Some(LLM_MODEL_NAME)
    );
}

#[test]
fn test_unknown_attributes_return_none() {
    assert_eq!(map_openinference_to_gen_ai("unknown.attribute"), None);
    assert_eq!(map_gen_ai_to_openinference("unknown.attribute"), None);
}

#[test]
fn every_mapped_key_maps_back() {
    for key in [
        "llm.model_name",
        "llm.provider",
        "llm.system",
        "llm.token_count.prompt",
        "llm.token_count.completion",
    ] {
        let g = map_openinference_to_gen_ai(key).unwrap();
        assert!(g.starts_with("gen_ai."));
        assert_eq!(map_gen_ai_to_openinference(g), Some(key));
    }
    assert_eq!(map_openinference_to_gen_ai("llm.token_count.total"), None);
    assert_eq!(map_gen_ai_to_openinference(LLM_TOKEN_COUNT_PROMPT), None);
}
