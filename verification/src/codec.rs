//! Per-tool-family settings schemas: the typed payload variants, their
//! well-formedness, and the builders that reconcile raw edit input with
//! existing settings.
//!
//! Each family keeps its settings in a typed variant. Builders take the
//! raw strings collected by an input layer — pre-filled with the stored
//! values in edit mode — and produce a new variant under the tri-state
//! field rule; the `codex` family additionally requires its free-form
//! configuration block to parse as TOML before acceptance.

use vstd::prelude::*;
use vstd::string::*;
use crate::errors::AppError;
use crate::merge::{opt_prefill, tristate_field, tristate_spec};
use crate::provider::clone_opt_string;
use crate::text::{is_trimmed, trim_spec, trim_string};

verus! {

/// Settings of the Anthropic tool family: a required auth token and base
/// URL, and four optional model-name overrides.
#[derive(Debug)]
pub struct ClaudeSettings {
    pub auth_token: String,
    pub base_url: String,
    pub model_default: Option<String>,
    pub model_haiku: Option<String>,
    pub model_sonnet: Option<String>,
    pub model_opus: Option<String>,
}

/// Settings of the `codex` family: a required API key and a free-form
/// TOML configuration block that must parse before acceptance.
#[derive(Debug)]
pub struct CodexSettings {
    pub api_key: String,
    pub config_toml: String,
}

/// Settings of the `gemini` family: one of three mutually exclusive
/// authentication modes.
#[derive(Debug)]
pub enum GeminiSettings {
    /// Delegated OAuth; no secrets are stored.
    Oauth,
    /// The hosted-gateway API-key mode: key plus gateway base URL.
    Packycode { api_key: String, base_url: String },
    /// The generic API-key mode: key plus generic base URL.
    Generic { api_key: String, base_url: String },
}

/// The settings payload of a profile, tagged by tool family.
#[derive(Debug)]
pub enum SettingsConfig {
    Claude(ClaudeSettings),
    Codex(CodexSettings),
    Gemini(GeminiSettings),
}

/// Whether the text parses as a TOML document; names the result of
/// `toml::from_str`, which depends on the text alone.
pub uninterp spec fn toml_accepts(s: Seq<char>) -> bool;

/// Relies on `toml::from_str` (reached through `str::parse::<toml::Table>`):
/// whether the text parses as a TOML document depends on the text alone,
/// and a failure carries the parser's diagnostic message.
#[verifier::external_body]
fn validate_toml(text: &str) -> (r: Result<(), String>)
    ensures
        r is Ok <==> toml_accepts(text@),
{
    match text.parse::<toml::Table>() {
        Ok(_) => Ok(()),
        Err(e) => Err(e.message().to_string()),
    }
}

/// A stored optional field is either absent or trimmed and non-empty.
pub open spec fn opt_field_wf(o: Option<String>) -> bool {
    match o {
        Some(v) => is_trimmed(v@) && v@.len() > 0,
        None => true,
    }
}

/// Well-formed Anthropic-family settings: stored fields are trimmed and
/// optional overrides are never stored empty.
pub open spec fn claude_wf(s: ClaudeSettings) -> bool {
    &&& is_trimmed(s.auth_token@)
    &&& is_trimmed(s.base_url@)
    &&& opt_field_wf(s.model_default)
    &&& opt_field_wf(s.model_haiku)
    &&& opt_field_wf(s.model_sonnet)
    &&& opt_field_wf(s.model_opus)
}

/// Well-formed `codex`-family settings: a trimmed key and a configuration
/// block that parses as TOML.
pub open spec fn codex_wf(s: CodexSettings) -> bool {
    &&& is_trimmed(s.api_key@)
    &&& toml_accepts(s.config_toml@)
}

/// Well-formed `gemini`-family settings: stored fields are trimmed.
pub open spec fn gemini_wf(s: GeminiSettings) -> bool {
    match s {
        GeminiSettings::Oauth => true,
        GeminiSettings::Packycode { api_key, base_url } => is_trimmed(api_key@) && is_trimmed(
            base_url@,
        ),
        GeminiSettings::Generic { api_key, base_url } => is_trimmed(api_key@) && is_trimmed(
            base_url@,
        ),
    }
}

/// Well-formedness of a settings payload, by family.
pub open spec fn settings_wf(s: SettingsConfig) -> bool {
    match s {
        SettingsConfig::Claude(c) => claude_wf(c),
        SettingsConfig::Codex(c) => codex_wf(c),
        SettingsConfig::Gemini(g) => gemini_wf(g),
    }
}

impl ClaudeSettings {
    /// An exact copy.
    pub fn duplicate(&self) -> (r: Self)
        ensures
            r == *self,
    {
        ClaudeSettings {
            auth_token: self.auth_token.clone(),
            base_url: self.base_url.clone(),
            model_default: clone_opt_string(&self.model_default),
            model_haiku: clone_opt_string(&self.model_haiku),
            model_sonnet: clone_opt_string(&self.model_sonnet),
            model_opus: clone_opt_string(&self.model_opus),
        }
    }
}

impl CodexSettings {
    /// An exact copy.
    pub fn duplicate(&self) -> (r: Self)
        ensures
            r == *self,
    {
        CodexSettings { api_key: self.api_key.clone(), config_toml: self.config_toml.clone() }
    }
}

impl GeminiSettings {
    /// An exact copy.
    pub fn duplicate(&self) -> (r: Self)
        ensures
            r == *self,
    {
        match self {
            GeminiSettings::Oauth => GeminiSettings::Oauth,
            GeminiSettings::Packycode { api_key, base_url } => GeminiSettings::Packycode {
                api_key: api_key.clone(),
                base_url: base_url.clone(),
            },
            GeminiSettings::Generic { api_key, base_url } => GeminiSettings::Generic {
                api_key: api_key.clone(),
                base_url: base_url.clone(),
            },
        }
    }
}

impl SettingsConfig {
    /// An exact copy.
    pub fn duplicate(&self) -> (r: Self)
        ensures
            r == *self,
    {
        match self {
            SettingsConfig::Claude(c) => SettingsConfig::Claude(c.duplicate()),
            SettingsConfig::Codex(c) => SettingsConfig::Codex(c.duplicate()),
            SettingsConfig::Gemini(g) => SettingsConfig::Gemini(g.duplicate()),
        }
    }
}

/// Raw edit input for the Anthropic tool family. In edit mode every field is
/// pre-filled with the stored value; the model fields matter only when
/// `configure_models` was chosen.
#[derive(Debug)]
pub struct ClaudeInput {
    pub auth_token: String,
    pub base_url: String,
    pub configure_models: bool,
    pub model_default: String,
    pub model_haiku: String,
    pub model_sonnet: String,
    pub model_opus: String,
}

/// Builds Anthropic-family settings from raw input. The token and base URL
/// are stored trimmed; when models are configured in this session each
/// override follows the tri-state rule, and otherwise the existing
/// overrides are kept untouched.
pub fn build_claude_config(existing: Option<&ClaudeSettings>, input: &ClaudeInput) -> (r:
    ClaudeSettings)
    ensures
        r.auth_token@ == trim_spec(input.auth_token@),
        r.base_url@ == trim_spec(input.base_url@),
        input.configure_models ==> {
            &&& r.model_default.deep_view() == tristate_spec(input.model_default@)
            &&& r.model_haiku.deep_view() == tristate_spec(input.model_haiku@)
            &&& r.model_sonnet.deep_view() == tristate_spec(input.model_sonnet@)
            &&& r.model_opus.deep_view() == tristate_spec(input.model_opus@)
        },
        !input.configure_models ==> match existing {
            Some(e) => r.model_default == e.model_default && r.model_haiku == e.model_haiku
                && r.model_sonnet == e.model_sonnet && r.model_opus == e.model_opus,
            None => r.model_default is None && r.model_haiku is None && r.model_sonnet is None
                && r.model_opus is None,
        },
{
    let auth_token = trim_string(&input.auth_token);
    let base_url = trim_string(&input.base_url);
    if input.configure_models {
        ClaudeSettings {
            auth_token,
            base_url,
            model_default: tristate_field(&input.model_default),
            model_haiku: tristate_field(&input.model_haiku),
            model_sonnet: tristate_field(&input.model_sonnet),
            model_opus: tristate_field(&input.model_opus),
        }
    } else {
        match existing {
            Some(e) => ClaudeSettings {
                auth_token,
                base_url,
                model_default: clone_opt_string(&e.model_default),
                model_haiku: clone_opt_string(&e.model_haiku),
                model_sonnet: clone_opt_string(&e.model_sonnet),
                model_opus: clone_opt_string(&e.model_opus),
            },
            None => ClaudeSettings {
                auth_token,
                base_url,
                model_default: None,
                model_haiku: None,
                model_sonnet: None,
                model_opus: None,
            },
        }
    }
}

/// The built-in fallback configuration block for the `codex` family.
pub open spec fn default_codex_toml_spec() -> Seq<char> {
    "base_url = \"https://api.openai.com\"\nmodel = \"gpt-4\""@
}

/// The built-in fallback configuration block, offered when no previous
/// value exists.
pub fn default_codex_toml() -> (r: String)
    ensures
        r@ == default_codex_toml_spec(),
{
    String::from_str("base_url = \"https://api.openai.com\"\nmodel = \"gpt-4\"")
}

/// The lines joined with line feeds.
pub open spec fn join_lines_spec(ls: Seq<Seq<char>>) -> Seq<char>
    decreases ls.len(),
{
    if ls.len() == 0 {
        Seq::empty()
    } else if ls.len() == 1 {
        ls[0]
    } else {
        join_lines_spec(ls.drop_last()) + seq!['\n'] + ls.last()
    }
}

/// Joins entered lines with line feeds.
pub fn join_lines(ls: &Vec<String>) -> (r: String)
    ensures
        r@ == join_lines_spec(ls.deep_view()),
{
    let mut r = String::new();
    let n = ls.len();
    let mut i: usize = 0;
    while i < n
        invariant
            0 <= i <= n,
            n == ls@.len(),
            r@ == join_lines_spec(ls.deep_view().subrange(0, i as int)),
        decreases n - i,
    {
        if i > 0 {
            r.append("\n");
        }
        r.append(ls[i].as_str());
        proof {
            let d = ls.deep_view();
            assert(d.subrange(0, i as int + 1).drop_last() =~= d.subrange(0, i as int));
            assert(d.subrange(0, i as int + 1).last() == d[i as int]);
            reveal_strlit("\n");
            if i == 0 {
                assert(r@ =~= join_lines_spec(d.subrange(0, 1)));
            } else {
                assert(r@ =~= join_lines_spec(d.subrange(0, i as int + 1)));
            }
        }
        i = i + 1;
    }
    proof {
        assert(ls.deep_view().subrange(0, n as int) =~= ls.deep_view());
    }
    r
}

/// Raw edit input for the `codex` family: the key, whether the offered
/// fallback block was accepted, and the lines entered otherwise.
#[derive(Debug)]
pub struct CodexInput {
    pub api_key: String,
    pub use_default: bool,
    pub entered_lines: Vec<String>,
}

/// The configuration text an edit session settles on: the fallback (the
/// previous value, or the built-in default) when it was accepted or
/// nothing was entered, else the entered lines.
pub open spec fn chosen_toml(
    existing_cfg: Option<Seq<char>>,
    use_default: bool,
    lines: Seq<Seq<char>>,
) -> Seq<char> {
    let fallback = match existing_cfg {
        Some(c) => c,
        None => default_codex_toml_spec(),
    };
    if use_default || lines.len() == 0 {
        fallback
    } else {
        join_lines_spec(lines)
    }
}

/// Builds `codex`-family settings from raw input. The chosen configuration
/// block must parse as TOML: invalid input is rejected with the parser's
/// diagnostic and nothing is stored, so the previous value is never
/// silently discarded.
pub fn build_codex_config(existing: Option<&CodexSettings>, input: &CodexInput) -> (r: Result<
    CodexSettings,
    AppError,
>)
    ensures
        ({
            let chosen = chosen_toml(
                match existing {
                    Some(e) => Some(e.config_toml@),
                    None => None,
                },
                input.use_default,
                input.entered_lines.deep_view(),
            );
            match r {
                Ok(s) => {
                    &&& s.api_key@ == trim_spec(input.api_key@)
                    &&& s.config_toml@ == chosen
                    &&& toml_accepts(chosen)
                },
                Err(e) => e is ValidationError && !toml_accepts(chosen),
            }
        }),
{
    let api_key = trim_string(&input.api_key);
    let fallback = match existing {
        Some(e) => e.config_toml.clone(),
        None => default_codex_toml(),
    };
    let config_toml: String = if input.use_default || input.entered_lines.len() == 0 {
        fallback
    } else {
        join_lines(&input.entered_lines)
    };
    match validate_toml(config_toml.as_str()) {
        Ok(_) => Ok(CodexSettings { api_key, config_toml }),
        Err(msg) => Err(AppError::ValidationError(msg)),
    }
}

/// The authentication mode selected for the `gemini` family.
#[derive(Clone, Copy, PartialEq, Eq, Structural, Debug)]
pub enum GeminiAuthChoice {
    Oauth,
    Packycode,
    Generic,
}

/// Raw edit input for the `gemini` family: the selected mode and, for
/// the key-bearing modes, the key and base URL.
#[derive(Debug)]
pub struct GeminiInput {
    pub choice: GeminiAuthChoice,
    pub api_key: String,
    pub base_url: String,
}

/// Builds `gemini`-family settings from raw input. The delegated-OAuth mode
/// stores no secrets; the key-bearing modes store the trimmed key and
/// base URL.
pub fn build_gemini_config(input: &GeminiInput) -> (r: GeminiSettings)
    ensures
        match input.choice {
            GeminiAuthChoice::Oauth => r is Oauth,
            GeminiAuthChoice::Packycode => r matches GeminiSettings::Packycode {
                api_key,
                base_url,
            } && api_key@ == trim_spec(input.api_key@) && base_url@ == trim_spec(input.base_url@),
            GeminiAuthChoice::Generic => r matches GeminiSettings::Generic { api_key, base_url }
                && api_key@ == trim_spec(input.api_key@) && base_url@ == trim_spec(
                input.base_url@,
            ),
        },
{
    match input.choice {
        GeminiAuthChoice::Oauth => GeminiSettings::Oauth,
        GeminiAuthChoice::Packycode => GeminiSettings::Packycode {
            api_key: trim_string(&input.api_key),
            base_url: trim_string(&input.base_url),
        },
        GeminiAuthChoice::Generic => GeminiSettings::Generic {
            api_key: trim_string(&input.api_key),
            base_url: trim_string(&input.base_url),
        },
    }
}

/// Whether Anthropic-family edit input is exactly the pre-fill of existing
/// settings: every prompt shows the stored value and models are
/// revisited.
pub open spec fn claude_prefilled(s: ClaudeSettings, input: ClaudeInput) -> bool {
    &&& input.auth_token@ == s.auth_token@
    &&& input.base_url@ == s.base_url@
    &&& input.configure_models
    &&& input.model_default@ == opt_prefill(s.model_default.deep_view())
    &&& input.model_haiku@ == opt_prefill(s.model_haiku.deep_view())
    &&& input.model_sonnet@ == opt_prefill(s.model_sonnet.deep_view())
    &&& input.model_opus@ == opt_prefill(s.model_opus.deep_view())
}

/// Law: re-submitting the pre-filled values for well-formed Anthropic-family
/// settings rebuilds the very same settings — every required field and
/// every optional override is kept exactly.
pub proof fn lemma_claude_prefill_identity(s: ClaudeSettings, input: ClaudeInput)
    requires
        claude_wf(s),
        claude_prefilled(s, input),
    ensures
        trim_spec(input.auth_token@) == s.auth_token@,
        trim_spec(input.base_url@) == s.base_url@,
        tristate_spec(input.model_default@) == s.model_default.deep_view(),
        tristate_spec(input.model_haiku@) == s.model_haiku.deep_view(),
        tristate_spec(input.model_sonnet@) == s.model_sonnet.deep_view(),
        tristate_spec(input.model_opus@) == s.model_opus.deep_view(),
{
    crate::merge::lemma_tristate_prefill_identity(s.model_default.deep_view());
    crate::merge::lemma_tristate_prefill_identity(s.model_haiku.deep_view());
    crate::merge::lemma_tristate_prefill_identity(s.model_sonnet.deep_view());
    crate::merge::lemma_tristate_prefill_identity(s.model_opus.deep_view());
}

/// Law: accepting the offered fallback for well-formed `codex`-family
/// settings keeps the stored configuration block, and it still validates;
/// with the key prompt pre-filled the whole settings are unchanged.
pub proof fn lemma_codex_prefill_identity(s: CodexSettings, lines: Seq<Seq<char>>)
    requires
        codex_wf(s),
    ensures
        chosen_toml(Some(s.config_toml@), true, lines) == s.config_toml@,
        toml_accepts(chosen_toml(Some(s.config_toml@), true, lines)),
        trim_spec(s.api_key@) == s.api_key@,
{
}

/// Whether `gemini`-family edit input is exactly the pre-fill of existing
/// settings: the stored mode is re-selected and the prompts show the
/// stored values.
pub open spec fn gemini_prefilled(s: GeminiSettings, input: GeminiInput) -> bool {
    match s {
        GeminiSettings::Oauth => input.choice == GeminiAuthChoice::Oauth,
        GeminiSettings::Packycode { api_key, base_url } => input.choice
            == GeminiAuthChoice::Packycode && input.api_key@ == api_key@ && input.base_url@
            == base_url@,
        GeminiSettings::Generic { api_key, base_url } => input.choice == GeminiAuthChoice::Generic
            && input.api_key@ == api_key@ && input.base_url@ == base_url@,
    }
}

/// Law: re-submitting the pre-filled values for well-formed `gemini`-family
/// settings rebuilds the very same settings.
pub proof fn lemma_gemini_prefill_identity(s: GeminiSettings, input: GeminiInput)
    requires
        gemini_wf(s),
        gemini_prefilled(s, input),
    ensures
        trim_spec(input.api_key@) == match s {
            GeminiSettings::Oauth => trim_spec(input.api_key@),
            GeminiSettings::Packycode { api_key, .. } => api_key@,
            GeminiSettings::Generic { api_key, .. } => api_key@,
        },
        trim_spec(input.base_url@) == match s {
            GeminiSettings::Oauth => trim_spec(input.base_url@),
            GeminiSettings::Packycode { base_url, .. } => base_url@,
            GeminiSettings::Generic { base_url, .. } => base_url@,
        },
{
}

} // verus!
