//! The uniform external representation of a settings payload: a document
//! of named sections, each holding either free text or a table of
//! key/value pairs.
//!
//! The codec encodes each typed settings variant into such a document and
//! reads logical fields back out of one. An optional field that is unset
//! or cleared has no entry at all — never an entry with an empty value —
//! and the authentication mode of a `gemini`-family payload is inferred from
//! the document's shape alone.

use vstd::prelude::*;
use vstd::string::*;
use crate::codec::{ClaudeSettings, CodexSettings, GeminiSettings, SettingsConfig};
use crate::text::{contains_seq, contains_str};

verus! {

/// The value of one document section: free text or a key/value table.
#[derive(Debug)]
pub enum SectionValue {
    Text(String),
    Table(Vec<(String, String)>),
}

/// The value under a key in a table, seen at the view level; the last
/// entry with the key wins.
pub open spec fn table_lookup_v(t: Seq<(Seq<char>, Seq<char>)>, k: Seq<char>) -> Option<Seq<char>>
    decreases t.len(),
{
    if t.len() == 0 {
        None
    } else if t.last().0 == k {
        Some(t.last().1)
    } else {
        table_lookup_v(t.drop_last(), k)
    }
}

/// The value under a section name in a document; the last section with
/// the name wins.
pub open spec fn doc_lookup(d: Seq<(String, SectionValue)>, k: Seq<char>) -> Option<SectionValue>
    decreases d.len(),
{
    if d.len() == 0 {
        None
    } else if d.last().0@ == k {
        Some(d.last().1)
    } else {
        doc_lookup(d.drop_last(), k)
    }
}

fn dup_pairs(t: &Vec<(String, String)>) -> (r: Vec<(String, String)>)
    ensures
        r@ == t@,
{
    let n = t.len();
    let mut r: Vec<(String, String)> = Vec::new();
    let mut i: usize = 0;
    while i < n
        invariant
            0 <= i <= n,
            n == t@.len(),
            r@ =~= t@.subrange(0, i as int),
        decreases n - i,
    {
        let pair = (t[i].0.clone(), t[i].1.clone());
        proof {
            assert(pair == t@[i as int]);
        }
        r.push(pair);
        i = i + 1;
    }
    proof {
        assert(t@.subrange(0, n as int) =~= t@);
    }
    r
}

/// Two section values hold the same content, seen at the view level.
pub open spec fn section_eq(a: SectionValue, b: SectionValue) -> bool {
    match (a, b) {
        (SectionValue::Text(x), SectionValue::Text(y)) => x@ == y@,
        (SectionValue::Table(x), SectionValue::Table(y)) => x.deep_view() == y.deep_view(),
        _ => false,
    }
}

impl SectionValue {
    /// A copy with the same content.
    pub fn duplicate(&self) -> (r: Self)
        ensures
            section_eq(r, *self),
    {
        match self {
            SectionValue::Text(s) => SectionValue::Text(s.clone()),
            SectionValue::Table(t) => SectionValue::Table(dup_pairs(t)),
        }
    }
}

/// The value stored under a table key, if any.
pub fn table_get(t: &Vec<(String, String)>, k: &String) -> (r: Option<String>)
    ensures
        r.deep_view() == table_lookup_v(t.deep_view(), k@),
{
    let n = t.len();
    let mut i: usize = n;
    proof {
        assert(t.deep_view().subrange(0, n as int) =~= t.deep_view());
    }
    while i > 0
        invariant
            0 <= i <= n,
            n == t@.len(),
            table_lookup_v(t.deep_view(), k@) == table_lookup_v(
                t.deep_view().subrange(0, i as int),
                k@,
            ),
        decreases i,
    {
        proof {
            let dv = t.deep_view();
            assert(dv.subrange(0, i as int).last() == dv[i - 1]);
            assert(dv[i - 1].0 == t@[i - 1].0@);
        }
        if t[i - 1].0.eq(k) {
            let v = t[i - 1].1.clone();
            return Some(v);
        }
        proof {
            let dv = t.deep_view();
            assert(dv.subrange(0, i as int).drop_last() =~= dv.subrange(0, i as int - 1));
        }
        i = i - 1;
    }
    proof {
        assert(t.deep_view().subrange(0, 0) =~= Seq::<(Seq<char>, Seq<char>)>::empty());
    }
    None
}

/// The section stored under a name, if any.
pub fn doc_get(d: &Vec<(String, SectionValue)>, k: &String) -> (r: Option<SectionValue>)
    ensures
        match r {
            Some(v) => doc_lookup(d@, k@) matches Some(w) && section_eq(v, w),
            None => doc_lookup(d@, k@) is None,
        },
{
    let n = d.len();
    let mut i: usize = n;
    proof {
        assert(d@.subrange(0, n as int) =~= d@);
    }
    while i > 0
        invariant
            0 <= i <= n,
            n == d@.len(),
            doc_lookup(d@, k@) == doc_lookup(d@.subrange(0, i as int), k@),
        decreases i,
    {
        proof {
            assert(d@.subrange(0, i as int).last() == d@[i - 1]);
        }
        if d[i - 1].0.eq(k) {
            let v = d[i - 1].1.duplicate();
            return Some(v);
        }
        proof {
            assert(d@.subrange(0, i as int).drop_last() =~= d@.subrange(0, i as int - 1));
        }
        i = i - 1;
    }
    proof {
        assert(d@.subrange(0, 0) =~= Seq::<(String, SectionValue)>::empty());
    }
    None
}

/// The env table of Anthropic-family settings, at the view level: the token
/// and base URL when they are non-empty, and each override that is set.
/// A cleared or unset field has no entry.
pub open spec fn claude_env_view(s: ClaudeSettings) -> Seq<(Seq<char>, Seq<char>)> {
    let e = Seq::<(Seq<char>, Seq<char>)>::empty();
    let e = if s.auth_token@.len() > 0 {
        e.push(("ANTHROPIC_AUTH_TOKEN"@, s.auth_token@))
    } else {
        e
    };
    let e = if s.base_url@.len() > 0 {
        e.push(("ANTHROPIC_BASE_URL"@, s.base_url@))
    } else {
        e
    };
    let e = match s.model_default {
        Some(v) => e.push(("ANTHROPIC_MODEL"@, v@)),
        None => e,
    };
    let e = match s.model_haiku {
        Some(v) => e.push(("ANTHROPIC_DEFAULT_HAIKU_MODEL"@, v@)),
        None => e,
    };
    let e = match s.model_sonnet {
        Some(v) => e.push(("ANTHROPIC_DEFAULT_SONNET_MODEL"@, v@)),
        None => e,
    };
    match s.model_opus {
        Some(v) => e.push(("ANTHROPIC_DEFAULT_OPUS_MODEL"@, v@)),
        None => e,
    }
}

fn push_pair(env: &mut Vec<(String, String)>, k: &str, v: String)
    ensures
        final(env).deep_view() == old(env).deep_view().push((k@, v@)),
{
    let pair = (k.to_owned(), v);
    env.push(pair);
    proof {
        assert(final(env).deep_view() =~= old(env).deep_view().push((k@, pair.1@)));
    }
}

/// Encodes Anthropic-family settings into the uniform document: one `env`
/// section whose table is exactly [`claude_env_view`].
pub fn encode_claude(s: &ClaudeSettings) -> (r: Vec<(String, SectionValue)>)
    ensures
        r@.len() == 1,
        r@[0].0@ == "env"@,
        r@[0].1 matches SectionValue::Table(env) && env.deep_view() == claude_env_view(*s),
{
    let mut env: Vec<(String, String)> = Vec::new();
    proof {
        assert(env.deep_view() =~= Seq::<(Seq<char>, Seq<char>)>::empty());
    }
    if s.auth_token.unicode_len() > 0 {
        push_pair(&mut env, "ANTHROPIC_AUTH_TOKEN", s.auth_token.clone());
    }
    if s.base_url.unicode_len() > 0 {
        push_pair(&mut env, "ANTHROPIC_BASE_URL", s.base_url.clone());
    }
    match &s.model_default {
        Some(v) => push_pair(&mut env, "ANTHROPIC_MODEL", v.clone()),
        None => {},
    }
    match &s.model_haiku {
        Some(v) => push_pair(&mut env, "ANTHROPIC_DEFAULT_HAIKU_MODEL", v.clone()),
        None => {},
    }
    match &s.model_sonnet {
        Some(v) => push_pair(&mut env, "ANTHROPIC_DEFAULT_SONNET_MODEL", v.clone()),
        None => {},
    }
    match &s.model_opus {
        Some(v) => push_pair(&mut env, "ANTHROPIC_DEFAULT_OPUS_MODEL", v.clone()),
        None => {},
    }
    let mut r: Vec<(String, SectionValue)> = Vec::new();
    r.push(("env".to_owned(), SectionValue::Table(env)));
    r
}

/// Encodes `codex`-family settings: an `auth` table holding only the key,
/// and a `config` section holding the TOML text.
pub fn encode_codex(s: &CodexSettings) -> (r: Vec<(String, SectionValue)>)
    ensures
        r@.len() == 2,
        r@[0].0@ == "auth"@,
        r@[0].1 matches SectionValue::Table(auth) && auth.deep_view() == seq![
            ("OPENAI_API_KEY"@, s.api_key@),
        ],
        r@[1].0@ == "config"@,
        r@[1].1 matches SectionValue::Text(c) && c@ == s.config_toml@,
{
    let mut auth: Vec<(String, String)> = Vec::new();
    proof {
        assert(auth.deep_view() =~= Seq::<(Seq<char>, Seq<char>)>::empty());
    }
    push_pair(&mut auth, "OPENAI_API_KEY", s.api_key.clone());
    proof {
        assert(auth.deep_view() =~= seq![("OPENAI_API_KEY"@, s.api_key@)]);
    }
    let mut r: Vec<(String, SectionValue)> = Vec::new();
    r.push(("auth".to_owned(), SectionValue::Table(auth)));
    r.push(("config".to_owned(), SectionValue::Text(s.config_toml.clone())));
    r
}

/// The env table of `gemini`-family settings, at the view level: empty for
/// delegated OAuth, else the key and the mode's base-URL field.
pub open spec fn gemini_env_view(s: GeminiSettings) -> Seq<(Seq<char>, Seq<char>)> {
    match s {
        GeminiSettings::Oauth => Seq::empty(),
        GeminiSettings::Packycode { api_key, base_url } => seq![
            ("GEMINI_API_KEY"@, api_key@),
            ("GOOGLE_GEMINI_BASE_URL"@, base_url@),
        ],
        GeminiSettings::Generic { api_key, base_url } => seq![
            ("GEMINI_API_KEY"@, api_key@),
            ("BASE_URL"@, base_url@),
        ],
    }
}

/// Encodes `gemini`-family settings: an `env` section that is exactly
/// [`gemini_env_view`] and an empty `config` table.
pub fn encode_gemini(s: &GeminiSettings) -> (r: Vec<(String, SectionValue)>)
    ensures
        r@.len() == 2,
        r@[0].0@ == "env"@,
        r@[0].1 matches SectionValue::Table(env) && env.deep_view() == gemini_env_view(*s),
        r@[1].0@ == "config"@,
        r@[1].1 matches SectionValue::Table(c) && c@.len() == 0,
{
    let mut env: Vec<(String, String)> = Vec::new();
    proof {
        assert(env.deep_view() =~= Seq::<(Seq<char>, Seq<char>)>::empty());
    }
    match s {
        GeminiSettings::Oauth => {},
        GeminiSettings::Packycode { api_key, base_url } => {
            push_pair(&mut env, "GEMINI_API_KEY", api_key.clone());
            push_pair(&mut env, "GOOGLE_GEMINI_BASE_URL", base_url.clone());
            proof {
                assert(env.deep_view() =~= gemini_env_view(*s));
            }
        },
        GeminiSettings::Generic { api_key, base_url } => {
            push_pair(&mut env, "GEMINI_API_KEY", api_key.clone());
            push_pair(&mut env, "BASE_URL", base_url.clone());
            proof {
                assert(env.deep_view() =~= gemini_env_view(*s));
            }
        },
    }
    let mut r: Vec<(String, SectionValue)> = Vec::new();
    r.push(("env".to_owned(), SectionValue::Table(env)));
    let empty: Vec<(String, String)> = Vec::new();
    r.push(("config".to_owned(), SectionValue::Table(empty)));
    r
}

/// Encodes any settings payload into the uniform document.
pub fn encode_settings(s: &SettingsConfig) -> (r: Vec<(String, SectionValue)>)
    ensures
        match s {
            SettingsConfig::Claude(c) => r@.len() == 1 && r@[0].0@ == "env"@ && (r@[0].1
                matches SectionValue::Table(env) && env.deep_view() == claude_env_view(*c)),
            SettingsConfig::Codex(c) => r@.len() == 2 && r@[0].0@ == "auth"@ && (r@[0].1
                matches SectionValue::Table(auth) && auth.deep_view() == seq![
                ("OPENAI_API_KEY"@, c.api_key@),
            ]) && r@[1].0@ == "config"@ && (r@[1].1 matches SectionValue::Text(t) && t@
                == c.config_toml@),
            SettingsConfig::Gemini(g) => r@.len() == 2 && r@[0].0@ == "env"@ && (r@[0].1
                matches SectionValue::Table(env) && env.deep_view() == gemini_env_view(*g))
                && r@[1].0@ == "config"@ && (r@[1].1 matches SectionValue::Table(c) && c@.len()
                == 0),
        },
{
    match s {
        SettingsConfig::Claude(c) => encode_claude(c),
        SettingsConfig::Codex(c) => encode_codex(c),
        SettingsConfig::Gemini(g) => encode_gemini(g),
    }
}

/// The logical field under `key` in a document's `env` table, if any.
pub open spec fn env_field(d: Seq<(String, SectionValue)>, key: Seq<char>) -> Option<Seq<char>> {
    match doc_lookup(d, "env"@) {
        Some(SectionValue::Table(env)) => table_lookup_v(env.deep_view(), key),
        _ => None,
    }
}

/// The pre-fill fields of a Anthropic-family payload read back from a
/// document.
#[derive(Debug)]
pub struct ClaudeFields {
    pub auth_token: Option<String>,
    pub base_url: Option<String>,
    pub model_default: Option<String>,
    pub model_haiku: Option<String>,
    pub model_sonnet: Option<String>,
    pub model_opus: Option<String>,
}

/// Reads the Anthropic-family logical fields out of a document, for
/// pre-filling an edit.
pub fn decode_claude(d: &Vec<(String, SectionValue)>) -> (r: ClaudeFields)
    ensures
        r.auth_token.deep_view() == env_field(d@, "ANTHROPIC_AUTH_TOKEN"@),
        r.base_url.deep_view() == env_field(d@, "ANTHROPIC_BASE_URL"@),
        r.model_default.deep_view() == env_field(d@, "ANTHROPIC_MODEL"@),
        r.model_haiku.deep_view() == env_field(d@, "ANTHROPIC_DEFAULT_HAIKU_MODEL"@),
        r.model_sonnet.deep_view() == env_field(d@, "ANTHROPIC_DEFAULT_SONNET_MODEL"@),
        r.model_opus.deep_view() == env_field(d@, "ANTHROPIC_DEFAULT_OPUS_MODEL"@),
{
    let env = doc_get(d, &String::from_str("env"));
    match env {
        Some(SectionValue::Table(t)) => ClaudeFields {
            auth_token: table_get(&t, &String::from_str("ANTHROPIC_AUTH_TOKEN")),
            base_url: table_get(&t, &String::from_str("ANTHROPIC_BASE_URL")),
            model_default: table_get(&t, &String::from_str("ANTHROPIC_MODEL")),
            model_haiku: table_get(&t, &String::from_str("ANTHROPIC_DEFAULT_HAIKU_MODEL")),
            model_sonnet: table_get(&t, &String::from_str("ANTHROPIC_DEFAULT_SONNET_MODEL")),
            model_opus: table_get(&t, &String::from_str("ANTHROPIC_DEFAULT_OPUS_MODEL")),
        },
        _ => ClaudeFields {
            auth_token: None,
            base_url: None,
            model_default: None,
            model_haiku: None,
            model_sonnet: None,
            model_opus: None,
        },
    }
}

/// The pre-fill fields of a `codex`-family payload read back from a
/// document.
#[derive(Debug)]
pub struct CodexFields {
    pub api_key: Option<String>,
    pub config_toml: Option<String>,
}

/// Reads the `codex`-family logical fields out of a document, for
/// pre-filling an edit.
pub fn decode_codex(d: &Vec<(String, SectionValue)>) -> (r: CodexFields)
    ensures
        r.api_key.deep_view() == (match doc_lookup(d@, "auth"@) {
            Some(SectionValue::Table(auth)) => table_lookup_v(auth.deep_view(), "OPENAI_API_KEY"@),
            _ => None,
        }),
        r.config_toml.deep_view() == (match doc_lookup(d@, "config"@) {
            Some(SectionValue::Text(c)) => Some(c@),
            _ => None,
        }),
{
    let api_key = match doc_get(d, &String::from_str("auth")) {
        Some(SectionValue::Table(auth)) => table_get(&auth, &String::from_str("OPENAI_API_KEY")),
        _ => None,
    };
    let config_toml = match doc_get(d, &String::from_str("config")) {
        Some(SectionValue::Text(c)) => Some(c),
        _ => None,
    };
    CodexFields { api_key, config_toml }
}

/// The authentication mode a document's shape implies.
#[derive(Clone, Copy, PartialEq, Eq, Structural, Debug)]
pub enum GeminiAuthKind {
    Oauth,
    Packycode,
    Generic,
    /// No key field, yet a non-empty env mapping: indeterminate. Callers
    /// may present the hosted-gateway mode as a default, but must not
    /// store anything on that account.
    Unknown,
}

/// The detection rule for the `gemini` family: no key and an empty or
/// missing env mapping means delegated OAuth; a key whose gateway URL
/// holds the gateway marker means the hosted-gateway mode; any other key
/// is generic; no key in a non-empty mapping is indeterminate.
pub open spec fn detect_gemini_spec(d: Seq<(String, SectionValue)>) -> GeminiAuthKind {
    match doc_lookup(d, "env"@) {
        Some(SectionValue::Table(env)) => {
            let ev = env.deep_view();
            match table_lookup_v(ev, "GEMINI_API_KEY"@) {
                Some(_) => {
                    let marked = match table_lookup_v(ev, "GOOGLE_GEMINI_BASE_URL"@) {
                        Some(u) => contains_seq(u, "packycode"@),
                        None => false,
                    };
                    if marked {
                        GeminiAuthKind::Packycode
                    } else {
                        GeminiAuthKind::Generic
                    }
                },
                None => if ev.len() == 0 {
                    GeminiAuthKind::Oauth
                } else {
                    GeminiAuthKind::Unknown
                },
            }
        },
        Some(SectionValue::Text(_)) => GeminiAuthKind::Oauth,
        None => GeminiAuthKind::Oauth,
    }
}

/// Law: in the encoded env table of Anthropic-family settings every logical
/// field can be read back exactly — a required field that is empty and an
/// override that is unset or was cleared have no entry at all, never an
/// entry with an empty value.
#[verifier::rlimit(80)]
pub proof fn lemma_claude_env_lookup(s: ClaudeSettings)
    ensures
        table_lookup_v(claude_env_view(s), "ANTHROPIC_AUTH_TOKEN"@) == (if s.auth_token@.len()
            > 0 {
            Some(s.auth_token@)
        } else {
            None::<Seq<char>>
        }),
        table_lookup_v(claude_env_view(s), "ANTHROPIC_BASE_URL"@) == (if s.base_url@.len() > 0 {
            Some(s.base_url@)
        } else {
            None::<Seq<char>>
        }),
        table_lookup_v(claude_env_view(s), "ANTHROPIC_MODEL"@) == s.model_default.deep_view(),
        table_lookup_v(claude_env_view(s), "ANTHROPIC_DEFAULT_HAIKU_MODEL"@)
            == s.model_haiku.deep_view(),
        table_lookup_v(claude_env_view(s), "ANTHROPIC_DEFAULT_SONNET_MODEL"@)
            == s.model_sonnet.deep_view(),
        table_lookup_v(claude_env_view(s), "ANTHROPIC_DEFAULT_OPUS_MODEL"@)
            == s.model_opus.deep_view(),
{
    reveal_with_fuel(table_lookup_v, 10);
    reveal_strlit("ANTHROPIC_AUTH_TOKEN");
    reveal_strlit("ANTHROPIC_BASE_URL");
    reveal_strlit("ANTHROPIC_MODEL");
    reveal_strlit("ANTHROPIC_DEFAULT_HAIKU_MODEL");
    reveal_strlit("ANTHROPIC_DEFAULT_SONNET_MODEL");
    reveal_strlit("ANTHROPIC_DEFAULT_OPUS_MODEL");
    assert("ANTHROPIC_AUTH_TOKEN"@.len() == 20);
    assert("ANTHROPIC_BASE_URL"@.len() == 18);
    assert("ANTHROPIC_MODEL"@.len() == 15);
    assert("ANTHROPIC_DEFAULT_HAIKU_MODEL"@.len() == 29);
    assert("ANTHROPIC_DEFAULT_SONNET_MODEL"@.len() == 30);
    assert("ANTHROPIC_DEFAULT_OPUS_MODEL"@.len() == 28);
}

/// Law: decoding an encoded Anthropic-family document yields exactly the
/// logical fields that were stored; in particular a cleared override is
/// read back as unset.
pub proof fn lemma_claude_roundtrip(s: ClaudeSettings, d: Seq<(String, SectionValue)>)
    requires
        d.len() == 1,
        d[0].0@ == "env"@,
        d[0].1 matches SectionValue::Table(env) && env.deep_view() == claude_env_view(s),
    ensures
        env_field(d, "ANTHROPIC_AUTH_TOKEN"@) == (if s.auth_token@.len() > 0 {
            Some(s.auth_token@)
        } else {
            None::<Seq<char>>
        }),
        env_field(d, "ANTHROPIC_BASE_URL"@) == (if s.base_url@.len() > 0 {
            Some(s.base_url@)
        } else {
            None::<Seq<char>>
        }),
        env_field(d, "ANTHROPIC_MODEL"@) == s.model_default.deep_view(),
        env_field(d, "ANTHROPIC_DEFAULT_HAIKU_MODEL"@) == s.model_haiku.deep_view(),
        env_field(d, "ANTHROPIC_DEFAULT_SONNET_MODEL"@) == s.model_sonnet.deep_view(),
        env_field(d, "ANTHROPIC_DEFAULT_OPUS_MODEL"@) == s.model_opus.deep_view(),
{
    assert(d.last() == d[0]);
    assert(doc_lookup(d, "env"@) == Some(d[0].1));
    lemma_claude_env_lookup(s);
}

/// Law: the mode inferred from an encoded `gemini`-family document matches
/// the stored mode, except that a hosted-gateway profile whose gateway
/// URL lacks the gateway marker is read back as generic — detection goes
/// by the document's shape alone.
pub proof fn lemma_gemini_detect_roundtrip(s: GeminiSettings, d: Seq<(String, SectionValue)>)
    requires
        d.len() == 2,
        d[0].0@ == "env"@,
        d[0].1 matches SectionValue::Table(env) && env.deep_view() == gemini_env_view(s),
        d[1].0@ == "config"@,
        d[1].1 matches SectionValue::Table(c) && c@.len() == 0,
    ensures
        detect_gemini_spec(d) == (match s {
            GeminiSettings::Oauth => GeminiAuthKind::Oauth,
            GeminiSettings::Packycode { base_url, .. } => if contains_seq(
                base_url@,
                "packycode"@,
            ) {
                GeminiAuthKind::Packycode
            } else {
                GeminiAuthKind::Generic
            },
            GeminiSettings::Generic { .. } => GeminiAuthKind::Generic,
        }),
{
    reveal_with_fuel(table_lookup_v, 5);
    reveal_with_fuel(doc_lookup, 4);
    reveal_strlit("env");
    reveal_strlit("config");
    reveal_strlit("GEMINI_API_KEY");
    reveal_strlit("GOOGLE_GEMINI_BASE_URL");
    reveal_strlit("BASE_URL");
    assert("env"@.len() == 3);
    assert("config"@.len() == 6);
    assert("GEMINI_API_KEY"@.len() == 14);
    assert("GOOGLE_GEMINI_BASE_URL"@.len() == 22);
    assert("BASE_URL"@.len() == 8);
    assert(d.last() == d[1]);
    assert(d.drop_last().last() == d[0]);
    assert(doc_lookup(d, "env"@) == Some(d[0].1));
}

/// Infers the authentication mode of a `gemini`-family payload from the
/// document's shape, following [`detect_gemini_spec`] exactly.
pub fn detect_gemini_auth(d: &Vec<(String, SectionValue)>) -> (r: GeminiAuthKind)
    ensures
        r == detect_gemini_spec(d@),
{
    match doc_get(d, &String::from_str("env")) {
        Some(SectionValue::Table(env)) => {
            match table_get(&env, &String::from_str("GEMINI_API_KEY")) {
                Some(_) => {
                    let marked = match table_get(&env, &String::from_str("GOOGLE_GEMINI_BASE_URL"))
                        {
                        Some(u) => contains_str(u.as_str(), "packycode"),
                        None => false,
                    };
                    if marked {
                        GeminiAuthKind::Packycode
                    } else {
                        GeminiAuthKind::Generic
                    }
                },
                None => {
                    if env.len() == 0 {
                        GeminiAuthKind::Oauth
                    } else {
                        proof {
                            assert(env.deep_view().len() == env@.len());
                        }
                        GeminiAuthKind::Unknown
                    }
                },
            }
        },
        Some(SectionValue::Text(_)) => GeminiAuthKind::Oauth,
        None => GeminiAuthKind::Oauth,
    }
}

} // verus!
