//! The provider record, holding as plain values what authentication
//! detection reads from a provider and its settings document.

use vstd::prelude::*;

verus! {

/// One string-valued entry of the `env` object of a provider's settings.
#[derive(Clone, Debug)]
pub struct EnvVar {
    pub key: String,
    pub value: String,
}

/// The parts of a provider's settings document that authentication
/// detection reads.
#[derive(Clone, Debug)]
pub struct SettingsConfig {
    /// The string-valued entries of the `env` object, in document order
    /// (empty when there is no `env` object).
    pub env: Vec<EnvVar>,
    /// The string at `config.security.auth.selectedType`, if there is one.
    pub auth_selected_type: Option<String>,
    /// The boolean at `authFiles.enabled`, if there is one.
    pub auth_files_enabled: Option<bool>,
}

/// Provider metadata.
#[derive(Clone, Debug)]
pub struct ProviderMeta {
    /// Key of the partner promotion the provider was created from.
    pub partner_promotion_key: Option<String>,
}

/// A configured provider.
#[derive(Clone, Debug)]
pub struct Provider {
    pub id: String,
    pub name: String,
    pub settings_config: SettingsConfig,
    pub website_url: Option<String>,
    pub category: Option<String>,
    pub meta: Option<ProviderMeta>,
}

/// The value of the first `env` entry whose key is `key`.
pub open spec fn env_value(env: Seq<EnvVar>, key: Seq<char>) -> Option<Seq<char>>
    decreases env.len(),
{
    if env.len() == 0 {
        None
    } else if env[0].key@ == key {
        Some(env[0].value@)
    } else {
        env_value(env.drop_first(), key)
    }
}

/// The partner promotion key of a provider, if it has metadata with one.
pub open spec fn partner_key(p: Provider) -> Option<Seq<char>> {
    match p.meta {
        Some(meta) => meta.partner_promotion_key.deep_view(),
        None => None,
    }
}

impl EnvVar {
    pub fn new(key: &str, value: &str) -> (e: EnvVar)
        ensures
            e.key@ == key@,
            e.value@ == value@,
    {
        EnvVar { key: key.to_owned(), value: value.to_owned() }
    }
}

impl SettingsConfig {
    /// Settings with no `env` entries and neither marker set.
    pub fn new() -> (s: SettingsConfig)
        ensures
            s.env@.len() == 0,
            s.auth_selected_type is None,
            s.auth_files_enabled is None,
    {
        SettingsConfig { env: Vec::new(), auth_selected_type: None, auth_files_enabled: None }
    }

    /// These settings with one more `env` entry at the end.
    pub fn with_env(self, key: &str, value: &str) -> (s: SettingsConfig)
        ensures
            s.env@ == self.env@.push(s.env@.last()),
            s.env@.last().key@ == key@,
            s.env@.last().value@ == value@,
            s.auth_selected_type == self.auth_selected_type,
            s.auth_files_enabled == self.auth_files_enabled,
    {
        let mut s = self;
        s.env.push(EnvVar::new(key, value));
        s
    }

    /// These settings with `config.security.auth.selectedType` set.
    pub fn with_auth_selected_type(self, selected: &str) -> (s: SettingsConfig)
        ensures
            s.env@ == self.env@,
            s.auth_selected_type.deep_view() == Some(selected@),
            s.auth_files_enabled == self.auth_files_enabled,
    {
        let mut s = self;
        s.auth_selected_type = Some(selected.to_owned());
        s
    }

    /// These settings with `authFiles.enabled` set.
    pub fn with_auth_files_enabled(self, enabled: bool) -> (s: SettingsConfig)
        ensures
            s.env@ == self.env@,
            s.auth_selected_type == self.auth_selected_type,
            s.auth_files_enabled == Some(enabled),
    {
        let mut s = self;
        s.auth_files_enabled = Some(enabled);
        s
    }
}

impl Provider {
    /// A provider with the given id, name, settings and website, with no
    /// category and no metadata.
    pub fn with_id(
        id: String,
        name: String,
        settings_config: SettingsConfig,
        website_url: Option<String>,
    ) -> (p: Provider)
        ensures
            p.id == id,
            p.name == name,
            p.settings_config == settings_config,
            p.website_url == website_url,
            p.category is None,
            p.meta is None,
    {
        Provider { id, name, settings_config, website_url, category: None, meta: None }
    }
}

} // verus!
