use openinference::config::{
    parse_bool, parse_bool_word, ENV_BASE64_IMAGE_MAX_LENGTH, ENV_HIDE_INPUTS,
    ENV_HIDE_INPUT_IMAGES, ENV_HIDE_INPUT_MESSAGES, ENV_HIDE_OUTPUTS, ENV_HIDE_OUTPUT_MESSAGES,
};
use openinference::{EnvSource, TraceConfig, REDACTED};

fn env(pairs: &[(&str, &str)]) -> EnvSource {
    let mut e = EnvSource::new();
    for (name, value) in pairs {
        e = e.with_var(name.to_string(), value.to_string());
    }
    e
}

#[test]
fn test_default_is_all_visible() {
    let config = TraceConfig::default();
    assert!(!config.hide_inputs);
    assert!(!config.hide_outputs);
    assert!(!config.hide_input_messages);
    assert!(!config.hide_output_messages);
    assert!(!config.hide_input_images);
    assert!(!config.hide_input_text);
    assert!(!config.hide_output_text);
    assert!(!config.hide_llm_invocation_parameters);
    assert!(!config.hide_embedding_vectors);
    assert!(!config.hide_embeddings_vectors);
    assert!(!config.hide_embeddings_text);
    assert!(!config.hide_prompts);
    assert!(!config.hide_choices);
    assert_eq!(config.base64_image_max_length, 32_000);
    assert!(config.emit_gen_ai_attributes);
}

#[test]
fn test_from_env_reads_booleans() {
    let e = env(&[
        (ENV_HIDE_INPUTS, "true"),
        (ENV_HIDE_OUTPUTS, "1"),
        (ENV_HIDE_INPUT_MESSAGES, "TRUE"),
        (ENV_HIDE_OUTPUT_MESSAGES, "false"),
        (ENV_HIDE_INPUT_IMAGES, "0"),
        (ENV_BASE64_IMAGE_MAX_LENGTH, "16000"),
    ]);

    let config = TraceConfig::from_env(&e);

    assert!(config.hide_inputs);
    assert!(config.hide_outputs);
    assert!(config.hide_input_messages);
    assert!(!config.hide_output_messages);
    assert!(!config.hide_input_images);
    assert_eq!(config.base64_image_max_length, 16_000);
}

#[test]
fn test_from_env_invalid_values_use_defaults() {
    let e = env(&[
        (ENV_HIDE_INPUTS, "not_a_bool"),
        (ENV_BASE64_IMAGE_MAX_LENGTH, "not_a_number"),
    ]);

    let config = TraceConfig::from_env(&e);

    assert!(!config.hide_inputs);
    assert_eq!(config.base64_image_max_length, 32_000);
}

#[test]
fn test_builder_overrides_env() {
    let e = env(&[(ENV_HIDE_INPUTS, "true")]);

    let config = TraceConfig::builder().hide_inputs(false).build_with_env(&e);

    assert!(!config.hide_inputs);
}

#[test]
fn test_builder_falls_through_to_env() {
    let e = env(&[(ENV_HIDE_OUTPUTS, "true")]);

    let config = TraceConfig::builder().hide_inputs(true).build_with_env(&e);

    assert!(config.hide_inputs);
    assert!(config.hide_outputs); // from env
}

#[test]
fn test_compound_hide_inputs_implies_messages_text_images() {
    let config = TraceConfig::builder().hide_inputs(true).build();

    assert!(config.should_hide_input_messages());
    assert!(config.should_hide_input_text());
    assert!(config.should_hide_input_images());
    assert!(config.should_hide_prompts());
}

#[test]
fn test_compound_hide_outputs_implies_messages_text_choices() {
    let config = TraceConfig::builder().hide_outputs(true).build();

    assert!(config.should_hide_output_messages());
    assert!(config.should_hide_output_text());
    assert!(config.should_hide_choices());
}

#[test]
fn test_compound_hide_input_messages_implies_text_and_images() {
    let config = TraceConfig::builder().hide_input_messages(true).build();

    assert!(config.should_hide_input_messages());
    assert!(config.should_hide_input_text());
    assert!(config.should_hide_input_images());
    // Prompts are hidden only by hide_inputs or hide_prompts.
    assert!(!config.should_hide_prompts());
}

#[test]
fn test_compound_hide_output_messages_implies_text() {
    let config = TraceConfig::builder().hide_output_messages(true).build();

    assert!(config.should_hide_output_messages());
    assert!(config.should_hide_output_text());
    // Choices are hidden only by hide_outputs or hide_choices.
    assert!(!config.should_hide_choices());
}

#[test]
fn test_deprecated_hide_embedding_vectors() {
    let config = TraceConfig::builder().hide_embedding_vectors(true).build();
    assert!(config.should_hide_embedding_vectors());

    let config2 = TraceConfig::builder().hide_embeddings_vectors(true).build();
    assert!(config2.should_hide_embedding_vectors());
}

#[test]
fn test_redacted_constant() {
    assert_eq!(REDACTED, "__REDACTED__");
}

#[test]
fn test_builder_emit_gen_ai_attributes() {
    let config = TraceConfig::builder().emit_gen_ai_attributes(false).build();
    assert!(!config.emit_gen_ai_attributes);
}

// Each row of the cascade, one switch at a time.
#[test]
fn cascade_rows_one_switch_at_a_time() {
    let only_text = TraceConfig::builder().hide_input_text(true).build();
    assert!(only_text.should_hide_input_text());
    assert!(!only_text.should_hide_input_messages());
    assert!(!only_text.should_hide_prompts());
    assert!(!only_text.should_hide_input_images());

    let only_images = TraceConfig::builder().hide_input_images(true).build();
    assert!(only_images.should_hide_input_images());
    assert!(!only_images.should_hide_input_text());

    let only_output_text = TraceConfig::builder().hide_output_text(true).build();
    assert!(only_output_text.should_hide_output_text());
    assert!(!only_output_text.should_hide_output_messages());
    assert!(!only_output_text.should_hide_choices());

    let only_prompts = TraceConfig::builder().hide_prompts(true).build();
    assert!(only_prompts.should_hide_prompts());
    assert!(!only_prompts.should_hide_input_messages());
    assert!(!only_prompts.should_hide_input_text());

    let only_choices = TraceConfig::builder().hide_choices(true).build();
    assert!(only_choices.should_hide_choices());
    assert!(!only_choices.should_hide_output_text());

    let nothing = TraceConfig::default();
    assert!(!nothing.should_hide_input_messages());
    assert!(!nothing.should_hide_output_messages());
    assert!(!nothing.should_hide_input_text());
    assert!(!nothing.should_hide_output_text());
    assert!(!nothing.should_hide_input_images());
    assert!(!nothing.should_hide_embedding_vectors());
    assert!(!nothing.should_hide_prompts());
    assert!(!nothing.should_hide_choices());
}

#[test]
fn builder_value_wins_over_env_which_wins_over_default() {
    let e = env(&[
        (ENV_HIDE_INPUTS, "false"),
        (ENV_HIDE_OUTPUTS, "true"),
        (ENV_BASE64_IMAGE_MAX_LENGTH, "100"),
    ]);
    let config = TraceConfig::builder()
        .hide_inputs(true)
        .base64_image_max_length(7)
        .build_with_env(&e);
    assert!(config.hide_inputs);
    assert!(config.hide_outputs);
    assert_eq!(config.base64_image_max_length, 7);
    assert!(!config.hide_prompts);
    assert!(config.emit_gen_ai_attributes);
}

#[test]
fn later_binding_of_a_variable_wins() {
    let e = env(&[(ENV_HIDE_INPUTS, "true"), (ENV_HIDE_INPUTS, "0")]);
    assert!(!TraceConfig::from_env(&e).hide_inputs);
    assert_eq!(e.get(ENV_HIDE_INPUTS).map(|s| s.as_str()), Some("0"));
    assert_eq!(e.get(ENV_HIDE_OUTPUTS), None);
}

#[test]
fn numeric_length_forms() {
    let plus = TraceConfig::from_env(&env(&[(ENV_BASE64_IMAGE_MAX_LENGTH, "+42")]));
    assert_eq!(plus.base64_image_max_length, 42);
    let negative = TraceConfig::from_env(&env(&[(ENV_BASE64_IMAGE_MAX_LENGTH, "-1")]));
    assert_eq!(negative.base64_image_max_length, 32_000);
    let empty = TraceConfig::from_env(&env(&[(ENV_BASE64_IMAGE_MAX_LENGTH, "")]));
    assert_eq!(empty.base64_image_max_length, 32_000);
    let too_big = TraceConfig::from_env(&env(&[(
        ENV_BASE64_IMAGE_MAX_LENGTH,
        "99999999999999999999999999",
    )]));
    assert_eq!(too_big.base64_image_max_length, 32_000);
    let zero = TraceConfig::from_env(&env(&[(ENV_BASE64_IMAGE_MAX_LENGTH, "0")]));
    assert_eq!(zero.base64_image_max_length, 0);
}

#[test]
fn boolean_words() {
    assert_eq!(parse_bool_word("true"), Some(true));
    assert_eq!(parse_bool_word("1"), Some(true));
    assert_eq!(parse_bool_word("false"), Some(false));
    assert_eq!(parse_bool_word("0"), Some(false));
    assert_eq!(parse_bool_word("TRUE"), None);
    assert_eq!(parse_bool_word("yes"), None);
    assert_eq!(parse_bool("TrUe"), Some(true));
    assert_eq!(parse_bool("FALSE"), Some(false));
    assert_eq!(parse_bool("not_a_bool"), None);
    assert_eq!(parse_bool(""), None);
}

#[test]
fn empty_environment_gives_defaults() {
    let config = TraceConfig::from_env(&EnvSource::new());
    assert!(!config.hide_inputs);
    assert!(!config.hide_choices);
    assert_eq!(config.base64_image_max_length, 32_000);
    assert!(config.emit_gen_ai_attributes);
    let built = TraceConfig::builder().build_with_env(&EnvSource::new());
    assert!(!built.hide_outputs);
}
