//! Trace configuration: which categories of recorded content are hidden.
//!
//! A configuration is resolved per field from, in order of precedence, an
//! explicit builder value, a value read from the environment, and the
//! compiled-in default. The derived `should_hide_*` decisions combine the
//! resolved switches; a broad switch implies the narrower ones of its
//! category, never the other way round.
use vstd::prelude::*;
use crate::text::text_eq;

verus! {

/// Placeholder written in place of hidden content.
pub const REDACTED: &'static str = "__REDACTED__";

pub const ENV_HIDE_INPUTS: &'static str = "OPENINFERENCE_HIDE_INPUTS";
pub const ENV_HIDE_OUTPUTS: &'static str = "OPENINFERENCE_HIDE_OUTPUTS";
pub const ENV_HIDE_INPUT_MESSAGES: &'static str = "OPENINFERENCE_HIDE_INPUT_MESSAGES";
pub const ENV_HIDE_OUTPUT_MESSAGES: &'static str = "OPENINFERENCE_HIDE_OUTPUT_MESSAGES";
pub const ENV_HIDE_INPUT_IMAGES: &'static str = "OPENINFERENCE_HIDE_INPUT_IMAGES";
pub const ENV_HIDE_INPUT_TEXT: &'static str = "OPENINFERENCE_HIDE_INPUT_TEXT";
pub const ENV_HIDE_OUTPUT_TEXT: &'static str = "OPENINFERENCE_HIDE_OUTPUT_TEXT";
pub const ENV_HIDE_LLM_INVOCATION_PARAMETERS: &'static str = "OPENINFERENCE_HIDE_LLM_INVOCATION_PARAMETERS";
pub const ENV_HIDE_EMBEDDING_VECTORS: &'static str = "OPENINFERENCE_HIDE_EMBEDDING_VECTORS";
pub const ENV_HIDE_EMBEDDINGS_VECTORS: &'static str = "OPENINFERENCE_HIDE_EMBEDDINGS_VECTORS";
pub const ENV_HIDE_EMBEDDINGS_TEXT: &'static str = "OPENINFERENCE_HIDE_EMBEDDINGS_TEXT";
pub const ENV_HIDE_PROMPTS: &'static str = "OPENINFERENCE_HIDE_PROMPTS";
pub const ENV_HIDE_CHOICES: &'static str = "OPENINFERENCE_HIDE_CHOICES";
pub const ENV_BASE64_IMAGE_MAX_LENGTH: &'static str = "OPENINFERENCE_BASE64_IMAGE_MAX_LENGTH";

pub const DEFAULT_BASE64_IMAGE_MAX_LENGTH: usize = 32000;

// ---------------------------------------------------------------------------
// Parsing of environment values
// ---------------------------------------------------------------------------

/// What `str::to_lowercase` makes of a string.
pub uninterp spec fn lower_of(s: Seq<char>) -> Seq<char>;

/// Relies on `str::to_lowercase`: the result depends on the characters of
/// the argument alone.
#[verifier::external_body]
fn lowercase(s: &str) -> (r: String)
    ensures
        r@ == lower_of(s@),
{
    s.to_lowercase()
}

/// The boolean that a lower-case word stands for: `"true"` and `"1"` for
/// true, `"false"` and `"0"` for false.
pub open spec fn bool_word(s: Seq<char>) -> Option<bool> {
    if s == "true"@ || s == "1"@ {
        Some(true)
    } else if s == "false"@ || s == "0"@ {
        Some(false)
    } else {
        None
    }
}

/// The boolean that an environment value stands for, compared without
/// regard to case.
pub open spec fn bool_value(s: Seq<char>) -> Option<bool> {
    bool_word(lower_of(s))
}

/// Reads a lower-case word as a boolean.
pub fn parse_bool_word(lowered: &str) -> (r: Option<bool>)
    ensures
        r == bool_word(lowered@),
{
    if text_eq(lowered, "true") || text_eq(lowered, "1") {
        Some(true)
    } else if text_eq(lowered, "false") || text_eq(lowered, "0") {
        Some(false)
    } else {
        None
    }
}

/// Reads an environment value as a boolean, without regard to case.
pub fn parse_bool(value: &str) -> (r: Option<bool>)
    ensures
        r == bool_value(value@),
{
    let lowered = lowercase(value);
    parse_bool_word(lowered.as_str())
}

pub open spec fn is_digit(c: char) -> bool {
    '0' <= c && c <= '9'
}

/// The number that a string of decimal digits stands for.
pub open spec fn digits_value(s: Seq<char>) -> nat
    decreases s.len(),
{
    if s.len() == 0 {
        0
    } else {
        digits_value(s.drop_last()) * 10 + (s.last() as nat - '0' as nat) as nat
    }
}

/// Whether every character is an ASCII digit.
pub open spec fn all_digits(s: Seq<char>) -> bool {
    forall|i: int| 0 <= i < s.len() ==> is_digit(#[trigger] s[i])
}

/// The digits of an unsigned number: the text without a leading `+`.
pub open spec fn unsigned_digits(s: Seq<char>) -> Seq<char> {
    if s.len() > 0 && s[0] == '+' {
        s.drop_first()
    } else {
        s
    }
}

/// The `usize` that a string stands for: an optional `+` followed by one or
/// more ASCII digits, whose value fits in a `usize`.
pub open spec fn usize_value(s: Seq<char>) -> Option<nat> {
    let digits = unsigned_digits(s);
    if digits.len() > 0 && all_digits(digits) && digits_value(digits) <= usize::MAX {
        Some(digits_value(digits))
    } else {
        None
    }
}

/// Relies on `<usize as FromStr>::from_str`, documented as accepting an
/// optional `+` sign followed by decimal digits, and failing on anything
/// else and on values that do not fit.
#[verifier::external_body]
fn parse_usize(s: &str) -> (r: Option<usize>)
    ensures
        match r {
            Some(n) => usize_value(s@) == Some(n as nat),
            None => usize_value(s@) is None,
        },
{
    s.parse::<usize>().ok()
}

// ---------------------------------------------------------------------------
// Environment source
// ---------------------------------------------------------------------------

/// The value of the last binding of `name` in `vars`, if any.
pub open spec fn env_lookup(vars: Seq<(Seq<char>, Seq<char>)>, name: Seq<char>) -> Option<Seq<char>>
    decreases vars.len(),
{
    if vars.len() == 0 {
        None
    } else if vars.last().0 == name {
        Some(vars.last().1)
    } else {
        env_lookup(vars.drop_last(), name)
    }
}

/// A snapshot of environment variables, from name to value. A later binding
/// of a name hides an earlier one.
#[derive(Debug, Clone)]
pub struct EnvSource {
    vars: Vec<(String, String)>,
}

impl View for EnvSource {
    type V = Seq<(Seq<char>, Seq<char>)>;

    closed spec fn view(&self) -> Seq<(Seq<char>, Seq<char>)> {
        self.vars.deep_view()
    }
}

impl EnvSource {
    /// An environment with no variables.
    pub fn new() -> (r: EnvSource)
        ensures
            r@ == Seq::<(Seq<char>, Seq<char>)>::empty(),
    {
        let r = EnvSource { vars: Vec::new() };
        assert(r.vars.deep_view() =~= Seq::<(Seq<char>, Seq<char>)>::empty());
        r
    }

    /// Binds `name` to `value`.
    pub fn with_var(self, name: String, value: String) -> (r: EnvSource)
        ensures
            r@ == self@.push((name@, value@)),
    {
        let mut vars = self.vars;
        let ghost before = vars.deep_view();
        vars.push((name, value));
        assert(vars.deep_view() =~= before.push((name@, value@)));
        EnvSource { vars }
    }

    /// The value bound to `name`, if any.
    pub fn get(&self, name: &str) -> (r: Option<&String>)
        ensures
            match r {
                Some(v) => env_lookup(self@, name@) == Some(v@),
                None => env_lookup(self@, name@) is None,
            },
    {
        let mut i: usize = self.vars.len();
        assert(self@.take(i as int) =~= self@);
        while i > 0
            invariant
                i <= self.vars.len(),
                env_lookup(self@, name@) == env_lookup(self@.take(i as int), name@),
            decreases i,
        {
            let ghost prefix = self@.take(i as int);
            assert(prefix.drop_last() =~= self@.take(i - 1));
            if text_eq(self.vars[i - 1].0.as_str(), name) {
                return Some(&self.vars[i - 1].1);
            }
            i = i - 1;
        }
        assert(self@.take(0) =~= Seq::<(Seq<char>, Seq<char>)>::empty());
        None
    }
}

/// A boolean switch as the environment sets it: the value bound to `name`
/// when that reads as a boolean, else `default`.
pub open spec fn env_bool(vars: Seq<(Seq<char>, Seq<char>)>, name: Seq<char>, default: bool) -> bool {
    match env_lookup(vars, name) {
        Some(v) => match bool_value(v) {
            Some(b) => b,
            None => default,
        },
        None => default,
    }
}

/// A length as the environment sets it: the value bound to `name` when that
/// reads as a `usize`, else `default`.
pub open spec fn env_usize(vars: Seq<(Seq<char>, Seq<char>)>, name: Seq<char>, default: usize) -> usize {
    match env_lookup(vars, name) {
        Some(v) => match usize_value(v) {
            Some(n) => n as usize,
            None => default,
        },
        None => default,
    }
}

fn read_bool(env: &EnvSource, name: &str, default: bool) -> (r: bool)
    ensures
        r == env_bool(env@, name@, default),
{
    match env.get(name) {
        Some(v) => match parse_bool(v.as_str()) {
            Some(b) => b,
            None => default,
        },
        None => default,
    }
}

fn read_usize(env: &EnvSource, name: &str, default: usize) -> (r: usize)
    ensures
        r == env_usize(env@, name@, default),
{
    match env.get(name) {
        Some(v) => match parse_usize(v.as_str()) {
            Some(n) => n,
            None => default,
        },
        None => default,
    }
}

// ---------------------------------------------------------------------------
// TraceConfig
// ---------------------------------------------------------------------------

/// Which categories of content are hidden, and related limits.
#[derive(Debug, Clone, Copy)]
pub struct TraceConfig {
    pub hide_inputs: bool,
    pub hide_outputs: bool,
    pub hide_input_messages: bool,
    pub hide_output_messages: bool,
    pub hide_input_images: bool,
    pub hide_input_text: bool,
    pub hide_output_text: bool,
    pub hide_llm_invocation_parameters: bool,
    /// Deprecated spelling of `hide_embeddings_vectors`; either one hides.
    pub hide_embedding_vectors: bool,
    pub hide_embeddings_vectors: bool,
    pub hide_embeddings_text: bool,
    pub hide_prompts: bool,
    pub hide_choices: bool,
    pub base64_image_max_length: usize,
    /// Whether the GenAI-convention attributes are emitted too.
    pub emit_gen_ai_attributes: bool,
}

/// The compiled-in defaults: nothing hidden, both vocabularies emitted.
pub open spec fn default_config() -> TraceConfig {
    TraceConfig {
        hide_inputs: false,
        hide_outputs: false,
        hide_input_messages: false,
        hide_output_messages: false,
        hide_input_images: false,
        hide_input_text: false,
        hide_output_text: false,
        hide_llm_invocation_parameters: false,
        hide_embedding_vectors: false,
        hide_embeddings_vectors: false,
        hide_embeddings_text: false,
        hide_prompts: false,
        hide_choices: false,
        base64_image_max_length: DEFAULT_BASE64_IMAGE_MAX_LENGTH,
        emit_gen_ai_attributes: true,
    }
}

/// The configuration that the environment `vars` gives: each field read
/// from its variable, the default where that is unset or unreadable.
pub open spec fn env_config(vars: Seq<(Seq<char>, Seq<char>)>) -> TraceConfig {
    TraceConfig {
        hide_inputs: env_bool(vars, ENV_HIDE_INPUTS@, false),
        hide_outputs: env_bool(vars, ENV_HIDE_OUTPUTS@, false),
        hide_input_messages: env_bool(vars, ENV_HIDE_INPUT_MESSAGES@, false),
        hide_output_messages: env_bool(vars, ENV_HIDE_OUTPUT_MESSAGES@, false),
        hide_input_images: env_bool(vars, ENV_HIDE_INPUT_IMAGES@, false),
        hide_input_text: env_bool(vars, ENV_HIDE_INPUT_TEXT@, false),
        hide_output_text: env_bool(vars, ENV_HIDE_OUTPUT_TEXT@, false),
        hide_llm_invocation_parameters: env_bool(vars, ENV_HIDE_LLM_INVOCATION_PARAMETERS@, false),
        hide_embedding_vectors: env_bool(vars, ENV_HIDE_EMBEDDING_VECTORS@, false),
        hide_embeddings_vectors: env_bool(vars, ENV_HIDE_EMBEDDINGS_VECTORS@, false),
        hide_embeddings_text: env_bool(vars, ENV_HIDE_EMBEDDINGS_TEXT@, false),
        hide_prompts: env_bool(vars, ENV_HIDE_PROMPTS@, false),
        hide_choices: env_bool(vars, ENV_HIDE_CHOICES@, false),
        base64_image_max_length: env_usize(
            vars,
            ENV_BASE64_IMAGE_MAX_LENGTH@,
            DEFAULT_BASE64_IMAGE_MAX_LENGTH,
        ),
        emit_gen_ai_attributes: true,
    }
}

impl Default for TraceConfig {
    /// Maximum observability: nothing hidden.
    fn default() -> (r: TraceConfig)
        ensures
            r == default_config(),
    {
        TraceConfig {
            hide_inputs: false,
            hide_outputs: false,
            hide_input_messages: false,
            hide_output_messages: false,
            hide_input_images: false,
            hide_input_text: false,
            hide_output_text: false,
            hide_llm_invocation_parameters: false,
            hide_embedding_vectors: false,
            hide_embeddings_vectors: false,
            hide_embeddings_text: false,
            hide_prompts: false,
            hide_choices: false,
            base64_image_max_length: DEFAULT_BASE64_IMAGE_MAX_LENGTH,
            emit_gen_ai_attributes: true,
        }
    }
}

impl TraceConfig {
    /// A builder with no field set.
    pub fn builder() -> (r: TraceConfigBuilder)
        ensures
            r == TraceConfigBuilder::unset(),
    {
        TraceConfigBuilder {
            hide_inputs: None,
            hide_outputs: None,
            hide_input_messages: None,
            hide_output_messages: None,
            hide_input_images: None,
            hide_input_text: None,
            hide_output_text: None,
            hide_llm_invocation_parameters: None,
            hide_embedding_vectors: None,
            hide_embeddings_vectors: None,
            hide_embeddings_text: None,
            hide_prompts: None,
            hide_choices: None,
            base64_image_max_length: None,
            emit_gen_ai_attributes: None,
        }
    }

    /// The configuration that the environment `env` gives. Boolean variables
    /// accept `true`/`false` and `1`/`0` without regard to case; the length
    /// is a decimal number; anything else, and an unset variable, leaves the
    /// default.
    pub fn from_env(env: &EnvSource) -> (r: TraceConfig)
        ensures
            r == env_config(env@),
    {
        TraceConfig {
            hide_inputs: read_bool(env, ENV_HIDE_INPUTS, false),
            hide_outputs: read_bool(env, ENV_HIDE_OUTPUTS, false),
            hide_input_messages: read_bool(env, ENV_HIDE_INPUT_MESSAGES, false),
            hide_output_messages: read_bool(env, ENV_HIDE_OUTPUT_MESSAGES, false),
            hide_input_images: read_bool(env, ENV_HIDE_INPUT_IMAGES, false),
            hide_input_text: read_bool(env, ENV_HIDE_INPUT_TEXT, false),
            hide_output_text: read_bool(env, ENV_HIDE_OUTPUT_TEXT, false),
            hide_llm_invocation_parameters: read_bool(
                env,
                ENV_HIDE_LLM_INVOCATION_PARAMETERS,
                false,
            ),
            hide_embedding_vectors: read_bool(env, ENV_HIDE_EMBEDDING_VECTORS, false),
            hide_embeddings_vectors: read_bool(env, ENV_HIDE_EMBEDDINGS_VECTORS, false),
            hide_embeddings_text: read_bool(env, ENV_HIDE_EMBEDDINGS_TEXT, false),
            hide_prompts: read_bool(env, ENV_HIDE_PROMPTS, false),
            hide_choices: read_bool(env, ENV_HIDE_CHOICES, false),
            base64_image_max_length: read_usize(
                env,
                ENV_BASE64_IMAGE_MAX_LENGTH,
                DEFAULT_BASE64_IMAGE_MAX_LENGTH,
            ),
            emit_gen_ai_attributes: true,
        }
    }

    pub open spec fn hides_input_messages(&self) -> bool {
        self.hide_inputs || self.hide_input_messages
    }

    pub open spec fn hides_output_messages(&self) -> bool {
        self.hide_outputs || self.hide_output_messages
    }

    pub open spec fn hides_input_text(&self) -> bool {
        self.hide_inputs || self.hide_input_messages || self.hide_input_text
    }

    pub open spec fn hides_output_text(&self) -> bool {
        self.hide_outputs || self.hide_output_messages || self.hide_output_text
    }

    pub open spec fn hides_input_images(&self) -> bool {
        self.hide_inputs || self.hide_input_messages || self.hide_input_images
    }

    pub open spec fn hides_embedding_vectors(&self) -> bool {
        self.hide_embedding_vectors || self.hide_embeddings_vectors
    }

    pub open spec fn hides_prompts(&self) -> bool {
        self.hide_inputs || self.hide_prompts
    }

    pub open spec fn hides_choices(&self) -> bool {
        self.hide_outputs || self.hide_choices
    }

    /// Whether input messages are hidden: `hide_inputs` or
    /// `hide_input_messages`.
    pub fn should_hide_input_messages(&self) -> (r: bool)
        ensures
            r == self.hides_input_messages(),
    {
        self.hide_inputs || self.hide_input_messages
    }

    /// Whether output messages are hidden: `hide_outputs` or
    /// `hide_output_messages`.
    pub fn should_hide_output_messages(&self) -> (r: bool)
        ensures
            r == self.hides_output_messages(),
    {
        self.hide_outputs || self.hide_output_messages
    }

    /// Whether input text is hidden: `hide_inputs`, `hide_input_messages` or
    /// `hide_input_text`.
    pub fn should_hide_input_text(&self) -> (r: bool)
        ensures
            r == self.hides_input_text(),
    {
        self.hide_inputs || self.hide_input_messages || self.hide_input_text
    }

    /// Whether output text is hidden: `hide_outputs`, `hide_output_messages`
    /// or `hide_output_text`.
    pub fn should_hide_output_text(&self) -> (r: bool)
        ensures
            r == self.hides_output_text(),
    {
        self.hide_outputs || self.hide_output_messages || self.hide_output_text
    }

    /// Whether input images are hidden: `hide_inputs`, `hide_input_messages`
    /// or `hide_input_images`.
    pub fn should_hide_input_images(&self) -> (r: bool)
        ensures
            r == self.hides_input_images(),
    {
        self.hide_inputs || self.hide_input_messages || self.hide_input_images
    }

    /// Whether embedding vectors are hidden: either spelling of the switch.
    pub fn should_hide_embedding_vectors(&self) -> (r: bool)
        ensures
            r == self.hides_embedding_vectors(),
    {
        self.hide_embedding_vectors || self.hide_embeddings_vectors
    }

    /// Whether completion prompts are hidden: `hide_inputs` or `hide_prompts`.
    pub fn should_hide_prompts(&self) -> (r: bool)
        ensures
            r == self.hides_prompts(),
    {
        self.hide_inputs || self.hide_prompts
    }

    /// Whether completion choices are hidden: `hide_outputs` or
    /// `hide_choices`.
    pub fn should_hide_choices(&self) -> (r: bool)
        ensures
            r == self.hides_choices(),
    {
        self.hide_outputs || self.hide_choices
    }
}

// ---------------------------------------------------------------------------
// Builder
// ---------------------------------------------------------------------------

/// Explicit per-field overrides; an unset field falls back to the base
/// configuration it is resolved against.
#[derive(Debug, Clone, Copy)]
pub struct TraceConfigBuilder {
    pub hide_inputs: Option<bool>,
    pub hide_outputs: Option<bool>,
    pub hide_input_messages: Option<bool>,
    pub hide_output_messages: Option<bool>,
    pub hide_input_images: Option<bool>,
    pub hide_input_text: Option<bool>,
    pub hide_output_text: Option<bool>,
    pub hide_llm_invocation_parameters: Option<bool>,
    pub hide_embedding_vectors: Option<bool>,
    pub hide_embeddings_vectors: Option<bool>,
    pub hide_embeddings_text: Option<bool>,
    pub hide_prompts: Option<bool>,
    pub hide_choices: Option<bool>,
    pub base64_image_max_length: Option<usize>,
    pub emit_gen_ai_attributes: Option<bool>,
}

/// The override if there is one, else the base value.
pub open spec fn pick<T>(o: Option<T>, base: T) -> T {
    match o {
        Some(v) => v,
        None => base,
    }
}

fn pick_bool(o: Option<bool>, base: bool) -> (r: bool)
    ensures
        r == pick(o, base),
{
    match o {
        Some(v) => v,
        None => base,
    }
}

fn pick_usize(o: Option<usize>, base: usize) -> (r: usize)
    ensures
        r == pick(o, base),
{
    match o {
        Some(v) => v,
        None => base,
    }
}

impl TraceConfigBuilder {
    pub open spec fn unset() -> TraceConfigBuilder {
        TraceConfigBuilder {
            hide_inputs: None,
            hide_outputs: None,
            hide_input_messages: None,
            hide_output_messages: None,
            hide_input_images: None,
            hide_input_text: None,
            hide_output_text: None,
            hide_llm_invocation_parameters: None,
            hide_embedding_vectors: None,
            hide_embeddings_vectors: None,
            hide_embeddings_text: None,
            hide_prompts: None,
            hide_choices: None,
            base64_image_max_length: None,
            emit_gen_ai_attributes: None,
        }
    }

    /// Each field of `base`, replaced by this builder's value where it has one.
    pub open spec fn resolve(&self, base: TraceConfig) -> TraceConfig {
        TraceConfig {
            hide_inputs: pick(self.hide_inputs, base.hide_inputs),
            hide_outputs: pick(self.hide_outputs, base.hide_outputs),
            hide_input_messages: pick(self.hide_input_messages, base.hide_input_messages),
            hide_output_messages: pick(self.hide_output_messages, base.hide_output_messages),
            hide_input_images: pick(self.hide_input_images, base.hide_input_images),
            hide_input_text: pick(self.hide_input_text, base.hide_input_text),
            hide_output_text: pick(self.hide_output_text, base.hide_output_text),
            hide_llm_invocation_parameters: pick(
                self.hide_llm_invocation_parameters,
                base.hide_llm_invocation_parameters,
            ),
            hide_embedding_vectors: pick(self.hide_embedding_vectors, base.hide_embedding_vectors),
            hide_embeddings_vectors: pick(
                self.hide_embeddings_vectors,
                base.hide_embeddings_vectors,
            ),
            hide_embeddings_text: pick(self.hide_embeddings_text, base.hide_embeddings_text),
            hide_prompts: pick(self.hide_prompts, base.hide_prompts),
            hide_choices: pick(self.hide_choices, base.hide_choices),
            base64_image_max_length: pick(
                self.base64_image_max_length,
                base.base64_image_max_length,
            ),
            emit_gen_ai_attributes: pick(self.emit_gen_ai_attributes, base.emit_gen_ai_attributes),
        }
    }

    pub fn hide_inputs(self, value: bool) -> (r: Self)
        ensures
            r == (TraceConfigBuilder { hide_inputs: Some(value), ..self }),
    {
        TraceConfigBuilder { hide_inputs: Some(value), ..self }
    }

    pub fn hide_outputs(self, value: bool) -> (r: Self)
        ensures
            r == (TraceConfigBuilder { hide_outputs: Some(value), ..self }),
    {
        TraceConfigBuilder { hide_outputs: Some(value), ..self }
    }

    pub fn hide_input_messages(self, value: bool) -> (r: Self)
        ensures
            r == (TraceConfigBuilder { hide_input_messages: Some(value), ..self }),
    {
        TraceConfigBuilder { hide_input_messages: Some(value), ..self }
    }

    pub fn hide_output_messages(self, value: bool) -> (r: Self)
        ensures
            r == (TraceConfigBuilder { hide_output_messages: Some(value), ..self }),
    {
        TraceConfigBuilder { hide_output_messages: Some(value), ..self }
    }

    pub fn hide_input_images(self, value: bool) -> (r: Self)
        ensures
            r == (TraceConfigBuilder { hide_input_images: Some(value), ..self }),
    {
        TraceConfigBuilder { hide_input_images: Some(value), ..self }
    }

    pub fn hide_input_text(self, value: bool) -> (r: Self)
        ensures
            r == (TraceConfigBuilder { hide_input_text: Some(value), ..self }),
    {
        TraceConfigBuilder { hide_input_text: Some(value), ..self }
    }

    pub fn hide_output_text(self, value: bool) -> (r: Self)
        ensures
            r == (TraceConfigBuilder { hide_output_text: Some(value), ..self }),
    {
        TraceConfigBuilder { hide_output_text: Some(value), ..self }
    }

    pub fn hide_llm_invocation_parameters(self, value: bool) -> (r: Self)
        ensures
            r == (TraceConfigBuilder { hide_llm_invocation_parameters: Some(value), ..self }),
    {
        TraceConfigBuilder { hide_llm_invocation_parameters: Some(value), ..self }
    }

    pub fn hide_embedding_vectors(self, value: bool) -> (r: Self)
        ensures
            r == (TraceConfigBuilder { hide_embedding_vectors: Some(value), ..self }),
    {
        TraceConfigBuilder { hide_embedding_vectors: Some(value), ..self }
    }

    pub fn hide_embeddings_vectors(self, value: bool) -> (r: Self)
        ensures
            r == (TraceConfigBuilder { hide_embeddings_vectors: Some(value), ..self }),
    {
        TraceConfigBuilder { hide_embeddings_vectors: Some(value), ..self }
    }

    pub fn hide_embeddings_text(self, value: bool) -> (r: Self)
        ensures
            r == (TraceConfigBuilder { hide_embeddings_text: Some(value), ..self }),
    {
        TraceConfigBuilder { hide_embeddings_text: Some(value), ..self }
    }

    pub fn hide_prompts(self, value: bool) -> (r: Self)
        ensures
            r == (TraceConfigBuilder { hide_prompts: Some(value), ..self }),
    {
        TraceConfigBuilder { hide_prompts: Some(value), ..self }
    }

    pub fn hide_choices(self, value: bool) -> (r: Self)
        ensures
            r == (TraceConfigBuilder { hide_choices: Some(value), ..self }),
    {
        TraceConfigBuilder { hide_choices: Some(value), ..self }
    }

    pub fn base64_image_max_length(self, value: usize) -> (r: Self)
        ensures
            r == (TraceConfigBuilder { base64_image_max_length: Some(value), ..self }),
    {
        TraceConfigBuilder { base64_image_max_length: Some(value), ..self }
    }

    pub fn emit_gen_ai_attributes(self, value: bool) -> (r: Self)
        ensures
            r == (TraceConfigBuilder { emit_gen_ai_attributes: Some(value), ..self }),
    {
        TraceConfigBuilder { emit_gen_ai_attributes: Some(value), ..self }
    }

    /// Resolves the overrides against `base`.
    pub fn build_over(self, base: TraceConfig) -> (r: TraceConfig)
        ensures
            r == self.resolve(base),
    {
        TraceConfig {
            hide_inputs: pick_bool(self.hide_inputs, base.hide_inputs),
            hide_outputs: pick_bool(self.hide_outputs, base.hide_outputs),
            hide_input_messages: pick_bool(self.hide_input_messages, base.hide_input_messages),
            hide_output_messages: pick_bool(self.hide_output_messages, base.hide_output_messages),
            hide_input_images: pick_bool(self.hide_input_images, base.hide_input_images),
            hide_input_text: pick_bool(self.hide_input_text, base.hide_input_text),
            hide_output_text: pick_bool(self.hide_output_text, base.hide_output_text),
            hide_llm_invocation_parameters: pick_bool(
                self.hide_llm_invocation_parameters,
                base.hide_llm_invocation_parameters,
            ),
            hide_embedding_vectors: pick_bool(
                self.hide_embedding_vectors,
                base.hide_embedding_vectors,
            ),
            hide_embeddings_vectors: pick_bool(
                self.hide_embeddings_vectors,
                base.hide_embeddings_vectors,
            ),
            hide_embeddings_text: pick_bool(self.hide_embeddings_text, base.hide_embeddings_text),
            hide_prompts: pick_bool(self.hide_prompts, base.hide_prompts),
            hide_choices: pick_bool(self.hide_choices, base.hide_choices),
            base64_image_max_length: pick_usize(
                self.base64_image_max_length,
                base.base64_image_max_length,
            ),
            emit_gen_ai_attributes: pick_bool(
                self.emit_gen_ai_attributes,
                base.emit_gen_ai_attributes,
            ),
        }
    }

    /// Resolves the overrides against the configuration that the
    /// environment `env` gives: override, then environment, then default.
    pub fn build_with_env(self, env: &EnvSource) -> (r: TraceConfig)
        ensures
            r == self.resolve(env_config(env@)),
    {
        let base = TraceConfig::from_env(env);
        self.build_over(base)
    }

    /// Resolves the overrides against the compiled-in defaults.
    pub fn build(self) -> (r: TraceConfig)
        ensures
            r == self.resolve(default_config()),
    {
        self.build_over(TraceConfig::default())
    }
}

} // verus!
