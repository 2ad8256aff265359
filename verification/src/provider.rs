//! The profile data model: one named configuration profile per downstream
//! tool, its optional display fields, and the constructors used by the
//! add and edit flows.
//!
//! A profile's identifier and tool family are fixed at creation; an edit
//! replaces every other field and refreshes only the update timestamp.

use vstd::prelude::*;
use vstd::string::*;
use crate::codec::{settings_wf, SettingsConfig};
use crate::merge::opt_text_wf;
use crate::text::is_trimmed;

verus! {

/// The tool family a profile belongs to; fixed at creation.
#[derive(Clone, Copy, PartialEq, Eq, Structural, Debug)]
pub enum AppType {
    Claude,
    Codex,
    Gemini,
}

/// One provider configuration profile.
#[derive(Debug)]
pub struct Provider {
    /// Unique within the store's partition for its tool family; immutable
    /// after creation.
    pub id: String,
    /// Non-empty display name.
    pub name: String,
    pub website_url: Option<String>,
    /// The tool family; immutable after creation.
    pub app_type: AppType,
    /// The settings payload; its shape is dictated by `app_type`.
    pub settings_config: SettingsConfig,
    pub notes: Option<String>,
    /// Display hint reserved for other producers; the edit flow never
    /// populates it.
    pub icon: Option<String>,
    /// Display hint reserved for other producers.
    pub icon_color: Option<String>,
    /// Non-negative display order.
    pub sort_index: Option<usize>,
    /// Seconds since the epoch, captured by the caller at commit time.
    pub created_at: i64,
    /// Seconds since the epoch, refreshed on every edit.
    pub updated_at: i64,
}

/// Whether a settings payload belongs to the given tool family.
pub open spec fn settings_matches_type(s: SettingsConfig, t: AppType) -> bool {
    match s {
        SettingsConfig::Claude(_) => t == AppType::Claude,
        SettingsConfig::Codex(_) => t == AppType::Codex,
        SettingsConfig::Gemini(_) => t == AppType::Gemini,
    }
}

/// A well-formed profile: non-empty identifier and trimmed non-empty
/// name, optional text fields never stored blank, and a well-formed
/// settings payload of the profile's own family.
pub open spec fn provider_wf(p: Provider) -> bool {
    &&& p.id@.len() > 0
    &&& is_trimmed(p.name@) && p.name@.len() > 0
    &&& opt_text_wf(p.website_url.deep_view())
    &&& opt_text_wf(p.notes.deep_view())
    &&& settings_matches_type(p.settings_config, p.app_type)
    &&& settings_wf(p.settings_config)
}

pub(crate) fn clone_opt_string(o: &Option<String>) -> (r: Option<String>)
    ensures
        r == *o,
{
    match o {
        Some(s) => Some(s.clone()),
        None => None,
    }
}

impl Provider {
    /// An exact copy of the profile.
    pub fn duplicate(&self) -> (r: Provider)
        ensures
            r == *self,
    {
        Provider {
            id: self.id.clone(),
            name: self.name.clone(),
            website_url: clone_opt_string(&self.website_url),
            app_type: self.app_type,
            settings_config: self.settings_config.duplicate(),
            notes: clone_opt_string(&self.notes),
            icon: clone_opt_string(&self.icon),
            icon_color: clone_opt_string(&self.icon_color),
            sort_index: self.sort_index,
            created_at: self.created_at,
            updated_at: self.updated_at,
        }
    }
}

/// The optional fields collected by the add and edit flows.
#[derive(Debug)]
pub struct OptionalFields {
    pub notes: Option<String>,
    pub icon: Option<String>,
    pub icon_color: Option<String>,
    pub sort_index: Option<usize>,
}

impl OptionalFields {
    /// Extracts the optional fields of an existing profile, for
    /// pre-filling an edit.
    pub fn from_provider(provider: &Provider) -> (r: Self)
        ensures
            r.notes == provider.notes,
            r.icon == provider.icon,
            r.icon_color == provider.icon_color,
            r.sort_index == provider.sort_index,
    {
        OptionalFields {
            notes: clone_opt_string(&provider.notes),
            icon: clone_opt_string(&provider.icon),
            icon_color: clone_opt_string(&provider.icon_color),
            sort_index: provider.sort_index,
        }
    }
}

impl Default for OptionalFields {
    /// All optional fields unset.
    fn default() -> (r: Self)
        ensures
            r.notes is None,
            r.icon is None,
            r.icon_color is None,
            r.sort_index is None,
    {
        OptionalFields { notes: None, icon: None, icon_color: None, sort_index: None }
    }
}

/// Assembles a newly created profile. The identifier is assigned here
/// once and never reassigned; both timestamps start at the commit time.
pub fn new_provider(
    id: String,
    name: String,
    website_url: Option<String>,
    app_type: AppType,
    settings: SettingsConfig,
    opts: OptionalFields,
    now: i64,
) -> (r: Provider)
    ensures
        r.id == id,
        r.name == name,
        r.website_url == website_url,
        r.app_type == app_type,
        r.settings_config == settings,
        r.notes == opts.notes,
        r.icon == opts.icon,
        r.icon_color == opts.icon_color,
        r.sort_index == opts.sort_index,
        r.created_at == now,
        r.updated_at == now,
{
    Provider {
        id,
        name,
        website_url,
        app_type,
        settings_config: settings,
        notes: opts.notes,
        icon: opts.icon,
        icon_color: opts.icon_color,
        sort_index: opts.sort_index,
        created_at: now,
        updated_at: now,
    }
}

/// Assembles the result of an edit. The identifier, tool family and
/// creation time are those of the existing profile — editing never
/// changes them — and only the update timestamp is refreshed.
pub fn apply_edit(
    existing: &Provider,
    name: String,
    website_url: Option<String>,
    settings: SettingsConfig,
    opts: OptionalFields,
    now: i64,
) -> (r: Provider)
    ensures
        r.id == existing.id,
        r.app_type == existing.app_type,
        r.created_at == existing.created_at,
        r.name == name,
        r.website_url == website_url,
        r.settings_config == settings,
        r.notes == opts.notes,
        r.icon == opts.icon,
        r.icon_color == opts.icon_color,
        r.sort_index == opts.sort_index,
        r.updated_at == now,
{
    Provider {
        id: existing.id.clone(),
        name,
        website_url,
        app_type: existing.app_type,
        settings_config: settings,
        notes: opts.notes,
        icon: opts.icon,
        icon_color: opts.icon_color,
        sort_index: opts.sort_index,
        created_at: existing.created_at,
        updated_at: now,
    }
}

} // verus!
