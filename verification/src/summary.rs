//! The fields a display boundary needs to render a profile summary — and
//! nothing else. The secret appears only in masked form; no field of the
//! summary ever holds the raw key.

use vstd::prelude::*;
use vstd::string::*;
use crate::codec::{GeminiSettings, SettingsConfig};
use crate::mask::{mask_api_key, mask_spec};
use crate::provider::{clone_opt_string, Provider};

verus! {

/// How many lines `str::lines` yields: one per line feed, plus a final
/// line when the text does not end with one.
pub open spec fn newline_count(s: Seq<char>) -> nat
    decreases s.len(),
{
    if s.len() == 0 {
        0
    } else {
        newline_count(s.drop_last()) + (if s.last() == '\n' {
            1nat
        } else {
            0nat
        })
    }
}

proof fn lemma_newline_count_le(s: Seq<char>)
    ensures
        newline_count(s) <= s.len(),
    decreases s.len(),
{
    if s.len() > 0 {
        lemma_newline_count_le(s.drop_last());
    }
}

/// The number of display lines of a text block.
pub open spec fn line_count_spec(s: Seq<char>) -> nat {
    if s.len() == 0 {
        0
    } else {
        newline_count(s) + (if s.last() == '\n' {
            0nat
        } else {
            1nat
        })
    }
}

/// Counts the display lines of a text block.
pub fn count_lines(s: &str) -> (r: usize)
    ensures
        r as nat == line_count_spec(s@),
{
    let n = s.unicode_len();
    if n == 0 {
        return 0;
    }
    let mut nl: usize = 0;
    let mut i: usize = 0;
    while i < n
        invariant
            0 <= i <= n,
            n == s@.len(),
            nl as nat == newline_count(s@.subrange(0, i as int)),
            nl <= i,
        decreases n - i,
    {
        proof {
            assert(s@.subrange(0, i as int + 1).drop_last() =~= s@.subrange(0, i as int));
            assert(s@.subrange(0, i as int + 1).last() == s@[i as int]);
        }
        if s.get_char(i) == '\n' {
            nl = nl + 1;
        }
        i = i + 1;
    }
    proof {
        assert(s@.subrange(0, n as int) =~= s@);
    }
    if s.get_char(n - 1) == '\n' {
        nl
    } else {
        proof {
            lemma_newline_count_le(s@.drop_last());
            assert(newline_count(s@) == newline_count(s@.drop_last()));
        }
        nl + 1
    }
}

/// The masked secret a summary shows for a payload: the masked key when
/// one is stored non-empty, nothing otherwise.
pub open spec fn summary_masked_key(s: SettingsConfig) -> Option<Seq<char>> {
    let key = match s {
        SettingsConfig::Claude(c) => Some(c.auth_token@),
        SettingsConfig::Codex(c) => Some(c.api_key@),
        SettingsConfig::Gemini(g) => match g {
            GeminiSettings::Oauth => None,
            GeminiSettings::Packycode { api_key, .. } => Some(api_key@),
            GeminiSettings::Generic { api_key, .. } => Some(api_key@),
        },
    };
    match key {
        Some(k) => if k.len() > 0 {
            Some(mask_spec(k))
        } else {
            None
        },
        None => None,
    }
}

/// The base URL a summary shows: the stored endpoint of the families
/// that have one.
pub open spec fn summary_base_url(s: SettingsConfig) -> Option<Seq<char>> {
    match s {
        SettingsConfig::Claude(c) => if c.base_url@.len() > 0 {
            Some(c.base_url@)
        } else {
            None
        },
        SettingsConfig::Codex(_) => None,
        SettingsConfig::Gemini(g) => match g {
            GeminiSettings::Oauth => None,
            GeminiSettings::Packycode { base_url, .. } => Some(base_url@),
            GeminiSettings::Generic { base_url, .. } => Some(base_url@),
        },
    }
}

/// What a display boundary may see of one profile.
#[derive(Debug)]
pub struct ProviderSummary {
    pub id: String,
    pub name: String,
    pub website_url: Option<String>,
    /// The display-safe form of the stored secret; the raw secret is not
    /// part of the summary.
    pub masked_key: Option<String>,
    pub base_url: Option<String>,
    /// The default model override, for the family that has one.
    pub model: Option<String>,
    /// The line count of the configuration block, for the family that
    /// has one.
    pub config_lines: Option<usize>,
    pub notes: Option<String>,
    pub sort_index: Option<usize>,
}

/// Extracts the summary fields of a profile. The secret appears only
/// through the masking function; every other field is copied as stored.
pub fn summary_fields(p: &Provider) -> (r: ProviderSummary)
    ensures
        r.id@ == p.id@,
        r.name@ == p.name@,
        r.website_url == p.website_url,
        r.masked_key.deep_view() == summary_masked_key(p.settings_config),
        r.base_url.deep_view() == summary_base_url(p.settings_config),
        r.model.deep_view() == (match p.settings_config {
            SettingsConfig::Claude(c) => c.model_default.deep_view(),
            _ => None::<Seq<char>>,
        }),
        (match p.settings_config {
            SettingsConfig::Codex(c) => r.config_lines matches Some(n) && n as nat
                == line_count_spec(c.config_toml@),
            _ => r.config_lines is None,
        }),
        r.notes == p.notes,
        r.sort_index == p.sort_index,
{
    let (masked_key, base_url, model, config_lines): (
        Option<String>,
        Option<String>,
        Option<String>,
        Option<usize>,
    ) = match &p.settings_config {
        SettingsConfig::Claude(c) => {
            let mk = if c.auth_token.unicode_len() > 0 {
                Some(mask_api_key(c.auth_token.as_str()))
            } else {
                None
            };
            let bu = if c.base_url.unicode_len() > 0 {
                Some(c.base_url.clone())
            } else {
                None
            };
            (mk, bu, clone_opt_string(&c.model_default), None)
        },
        SettingsConfig::Codex(c) => {
            let mk = if c.api_key.unicode_len() > 0 {
                Some(mask_api_key(c.api_key.as_str()))
            } else {
                None
            };
            (mk, None, None, Some(count_lines(c.config_toml.as_str())))
        },
        SettingsConfig::Gemini(g) => match g {
            GeminiSettings::Oauth => (None, None, None, None),
            GeminiSettings::Packycode { api_key, base_url } => {
                let mk = if api_key.unicode_len() > 0 {
                    Some(mask_api_key(api_key.as_str()))
                } else {
                    None
                };
                (mk, Some(base_url.clone()), None, None)
            },
            GeminiSettings::Generic { api_key, base_url } => {
                let mk = if api_key.unicode_len() > 0 {
                    Some(mask_api_key(api_key.as_str()))
                } else {
                    None
                };
                (mk, Some(base_url.clone()), None, None)
            },
        },
    };
    ProviderSummary {
        id: p.id.clone(),
        name: p.name.clone(),
        website_url: clone_opt_string(&p.website_url),
        masked_key,
        base_url,
        model,
        config_lines,
        notes: clone_opt_string(&p.notes),
        sort_index: p.sort_index,
    }
}

} // verus!
