//! Gemini authentication type detection.
//!
//! Decides whether a Gemini provider uses the PackyCode API key, Google
//! OAuth, or a generic API key.

use vstd::prelude::*;

use crate::provider::{env_value, partner_key, EnvVar, Provider};
use crate::text::{
    chars_of, contains, contains_chars, eq_chars, eq_ignore_ascii_case,
    eq_ignore_ascii_case_chars, eq_str, is_blank, is_blank_chars, lower, lower_chars,
    starts_with, starts_with_chars, trim, trim_chars,
};

verus! {

/// How a Gemini provider authenticates.
#[derive(Debug, Clone, Copy, PartialEq, Eq, Structural)]
pub enum GeminiAuthType {
    /// PackyCode provider (API key).
    Packycode,
    /// Google official (OAuth).
    GoogleOfficial,
    /// Any other Gemini provider (API key).
    Generic,
}

pub open spec fn google_official_partner_key() -> Seq<char> {
    "google-official"@
}

pub open spec fn packycode_partner_key() -> Seq<char> {
    "packycode"@
}

pub open spec fn google_generative_language_host() -> Seq<char> {
    "generativelanguage.googleapis.com"@
}

pub open spec fn google_ai_dev_host() -> Seq<char> {
    "ai.google.dev"@
}

pub open spec fn oauth_personal() -> Seq<char> {
    "oauth-personal"@
}

pub open spec fn gemini_api_key_var() -> Seq<char> {
    "GEMINI_API_KEY"@
}

pub open spec fn google_api_key_var() -> Seq<char> {
    "GOOGLE_API_KEY"@
}

pub open spec fn gemini_base_url_var() -> Seq<char> {
    "GOOGLE_GEMINI_BASE_URL"@
}

/// The `env` entry `key` holds a string that is not blank.
pub open spec fn spec_has_non_empty_env_value(p: Provider, key: Seq<char>) -> bool {
    match env_value(p.settings_config.env@, key) {
        Some(v) => !is_blank(v),
        None => false,
    }
}

/// The provider has a Gemini or Google API key.
pub open spec fn spec_has_any_gemini_api_key(p: Provider) -> bool {
    spec_has_non_empty_env_value(p, gemini_api_key_var()) || spec_has_non_empty_env_value(
        p,
        google_api_key_var(),
    )
}

/// The settings select the personal OAuth login.
pub open spec fn spec_has_oauth_selected_type(p: Provider) -> bool {
    p.settings_config.auth_selected_type.deep_view() == Some(oauth_personal())
}

/// The settings carry enabled OAuth auth files and there is no API key.
pub open spec fn spec_has_oauth_auth_files(p: Provider) -> bool {
    p.settings_config.auth_files_enabled == Some(true) && !spec_has_any_gemini_api_key(p)
}

/// The provider's category is `official` (in any ASCII case) and there is no API key.
pub open spec fn spec_is_official_category_without_api_key(p: Provider) -> bool {
    &&& p.category.deep_view() matches Some(c) && eq_ignore_ascii_case(c, "official"@)
    &&& !spec_has_any_gemini_api_key(p)
}

/// The Gemini base URL set in the provider's `env`.
pub open spec fn spec_gemini_base_url(p: Provider) -> Option<Seq<char>> {
    env_value(p.settings_config.env@, gemini_base_url_var())
}

/// A base URL points at a Google endpoint: once trimmed and lowercased it
/// is not empty and names one of the two Google hosts.
pub open spec fn spec_is_google_official_base_url(url: Seq<char>) -> bool {
    let l = lower(trim(url));
    &&& l.len() > 0
    &&& contains(l, google_generative_language_host()) || contains(l, google_ai_dev_host())
}

/// There is no API key, and the base URL is missing, blank, or Google's.
pub open spec fn spec_is_likely_google_oauth_without_api_key(p: Provider) -> bool {
    &&& !spec_has_any_gemini_api_key(p)
    &&& match spec_gemini_base_url(p) {
        None => true,
        Some(url) => is_blank(url) || spec_is_google_official_base_url(url),
    }
}

/// The PackyCode keywords.
pub open spec fn packycode_keywords() -> Seq<Seq<char>> {
    seq!["packycode"@, "packyapi"@, "packy"@]
}

/// A string contains one of the PackyCode keywords, ignoring ASCII case.
pub open spec fn spec_contains_packycode_keyword(s: Seq<char>) -> bool {
    exists|i: int| 0 <= i < 3 && contains(lower(s), #[trigger] packycode_keywords()[i])
}

/// A name is `google` or starts with `google ` (ignoring ASCII case).
pub open spec fn spec_is_google_name(name: Seq<char>) -> bool {
    lower(name) == "google"@ || starts_with(lower(name), "google "@)
}

/// The partner promotion key equals `key`, ignoring ASCII case.
pub open spec fn partner_key_is(p: Provider, key: Seq<char>) -> bool {
    partner_key(p) matches Some(k) && eq_ignore_ascii_case(k, key)
}

/// The evidence that a provider authenticates with Google OAuth, apart from
/// its partner key: an explicit OAuth marker, the official category without
/// an API key, no API key with a missing, blank or Google endpoint, or a
/// Google name.
pub open spec fn oauth_evidence(p: Provider) -> bool {
    ||| spec_has_oauth_selected_type(p)
    ||| spec_has_oauth_auth_files(p)
    ||| spec_is_official_category_without_api_key(p)
    ||| spec_is_likely_google_oauth_without_api_key(p)
    ||| spec_is_google_name(p.name@)
}

/// The evidence that a provider is PackyCode, apart from its partner key: a
/// keyword in its name, website or base URL.
pub open spec fn packycode_evidence(p: Provider) -> bool {
    ||| spec_contains_packycode_keyword(p.name@)
    ||| (p.website_url.deep_view() matches Some(site) && spec_contains_packycode_keyword(site))
    ||| (spec_gemini_base_url(p) matches Some(url) && spec_contains_packycode_keyword(url))
}

/// The authentication type of a provider. The partner key decides first;
/// otherwise OAuth evidence makes it Google official, PackyCode evidence
/// makes it PackyCode, and anything else is generic.
pub open spec fn spec_detect_gemini_auth_type(p: Provider) -> GeminiAuthType {
    if partner_key_is(p, google_official_partner_key()) {
        GeminiAuthType::GoogleOfficial
    } else if partner_key_is(p, packycode_partner_key()) {
        GeminiAuthType::Packycode
    } else if oauth_evidence(p) {
        GeminiAuthType::GoogleOfficial
    } else if packycode_evidence(p) {
        GeminiAuthType::Packycode
    } else {
        GeminiAuthType::Generic
    }
}

/// Looks up the value of the first `env` entry named `key`.
fn env_lookup<'a>(env: &'a Vec<EnvVar>, key: &str) -> (r: Option<&'a str>)
    ensures
        match r {
            Some(v) => env_value(env@, key@) == Some(v@),
            None => env_value(env@, key@) is None,
        },
{
    let n = env.len();
    let mut i: usize = 0;
    assert(env@.skip(0) =~= env@);
    while i < n
        invariant
            i <= n,
            n == env@.len(),
            env_value(env@, key@) == env_value(env@.skip(i as int), key@),
        decreases n - i,
    {
        let e = &env[i];
        if eq_str(e.key.as_str(), key) {
            return Some(e.value.as_str());
        }
        assert(env@.skip(i as int).drop_first() =~= env@.skip(i + 1));
        i = i + 1;
    }
    None
}

/// Whether the `env` entry `key` holds a string that is not blank.
pub fn has_non_empty_env_value(provider: &Provider, key: &str) -> (b: bool)
    ensures
        b == spec_has_non_empty_env_value(*provider, key@),
{
    match env_lookup(&provider.settings_config.env, key) {
        Some(value) => {
            let chars = chars_of(value);
            !is_blank_chars(chars.as_slice())
        },
        None => false,
    }
}

/// Whether the provider has a non-blank `GEMINI_API_KEY` or `GOOGLE_API_KEY`.
pub fn has_any_gemini_api_key(provider: &Provider) -> (b: bool)
    ensures
        b == spec_has_any_gemini_api_key(*provider),
{
    proof {
        reveal_strlit("GEMINI_API_KEY");
        reveal_strlit("GOOGLE_API_KEY");
    }
    has_non_empty_env_value(provider, "GEMINI_API_KEY") || has_non_empty_env_value(
        provider,
        "GOOGLE_API_KEY",
    )
}

/// Whether `config.security.auth.selectedType` is `oauth-personal`.
pub fn has_oauth_selected_type(provider: &Provider) -> (b: bool)
    ensures
        b == spec_has_oauth_selected_type(*provider),
{
    match &provider.settings_config.auth_selected_type {
        Some(selected) => eq_str(selected.as_str(), "oauth-personal"),
        None => false,
    }
}

/// Whether `authFiles.enabled` is `true` and there is no API key.
pub fn has_oauth_auth_files(provider: &Provider) -> (b: bool)
    ensures
        b == spec_has_oauth_auth_files(*provider),
{
    let enabled = match provider.settings_config.auth_files_enabled {
        Some(flag) => flag,
        None => false,
    };
    enabled && !has_any_gemini_api_key(provider)
}

/// Whether the category is `official` (any ASCII case) and there is no API key.
pub fn is_official_category_without_api_key(provider: &Provider) -> (b: bool)
    ensures
        b == spec_is_official_category_without_api_key(*provider),
{
    let official = match &provider.category {
        Some(category) => {
            let c = chars_of(category.as_str());
            let o = chars_of("official");
            eq_ignore_ascii_case_chars(c.as_slice(), o.as_slice())
        },
        None => false,
    };
    official && !has_any_gemini_api_key(provider)
}

/// The Gemini base URL (`GOOGLE_GEMINI_BASE_URL`) set in the provider's `env`.
pub fn get_gemini_base_url(provider: &Provider) -> (r: Option<&str>)
    ensures
        match r {
            Some(url) => spec_gemini_base_url(*provider) == Some(url@),
            None => spec_gemini_base_url(*provider) is None,
        },
{
    proof {
        reveal_strlit("GOOGLE_GEMINI_BASE_URL");
    }
    env_lookup(&provider.settings_config.env, "GOOGLE_GEMINI_BASE_URL")
}

/// Whether a base URL points at a Google Gemini endpoint.
pub fn is_google_official_base_url(base_url: &str) -> (b: bool)
    ensures
        b == spec_is_google_official_base_url(base_url@),
{
    let chars = chars_of(base_url);
    let trimmed = trim_chars(chars.as_slice());
    let lowered = lower_chars(trimmed.as_slice());
    if lowered.len() == 0 {
        return false;
    }
    let host = chars_of("generativelanguage.googleapis.com");
    let dev = chars_of("ai.google.dev");
    proof {
        reveal_strlit("generativelanguage.googleapis.com");
        reveal_strlit("ai.google.dev");
    }
    contains_chars(lowered.as_slice(), host.as_slice()) || contains_chars(
        lowered.as_slice(),
        dev.as_slice(),
    )
}

/// Whether a provider without an API key looks like an imported Google OAuth
/// profile: its base URL is missing, blank, or a Google endpoint.
pub fn is_likely_google_oauth_without_api_key(provider: &Provider) -> (b: bool)
    ensures
        b == spec_is_likely_google_oauth_without_api_key(*provider),
{
    if has_any_gemini_api_key(provider) {
        return false;
    }
    match get_gemini_base_url(provider) {
        None => true,
        Some(url) => {
            let chars = chars_of(url);
            if is_blank_chars(chars.as_slice()) {
                true
            } else {
                is_google_official_base_url(url)
            }
        },
    }
}

/// Whether a string contains a PackyCode keyword (`packycode`, `packyapi`,
/// `packy`), ignoring ASCII case.
pub fn contains_packycode_keyword(value: &str) -> (b: bool)
    ensures
        b == spec_contains_packycode_keyword(value@),
{
    let chars = chars_of(value);
    let lowered = lower_chars(chars.as_slice());
    let k0 = chars_of("packycode");
    let k1 = chars_of("packyapi");
    let k2 = chars_of("packy");
    let ghost keys = packycode_keywords();
    assert(keys[0] == "packycode"@ && keys[1] == "packyapi"@ && keys[2] == "packy"@);
    let b0 = contains_chars(lowered.as_slice(), k0.as_slice());
    let b1 = contains_chars(lowered.as_slice(), k1.as_slice());
    let b2 = contains_chars(lowered.as_slice(), k2.as_slice());
    proof {
        if b0 || b1 || b2 {
            if b0 {
                assert(contains(lower(value@), packycode_keywords()[0]));
            } else if b1 {
                assert(contains(lower(value@), packycode_keywords()[1]));
            } else {
                assert(contains(lower(value@), packycode_keywords()[2]));
            }
        } else {
            assert forall|i: int| 0 <= i < 3 implies !contains(
                lower(value@),
                #[trigger] packycode_keywords()[i],
            ) by {
                if i == 0 {
                } else if i == 1 {
                } else {
                }
            }
        }
    }
    b0 || b1 || b2
}

/// Whether the partner promotion key equals `key`, ignoring ASCII case.
fn partner_key_matches(provider: &Provider, key: &str) -> (b: bool)
    ensures
        b == partner_key_is(*provider, key@),
{
    match &provider.meta {
        Some(meta) => match &meta.partner_promotion_key {
            Some(k) => {
                let kc = chars_of(k.as_str());
                let wanted = chars_of(key);
                eq_ignore_ascii_case_chars(kc.as_slice(), wanted.as_slice())
            },
            None => false,
        },
        None => false,
    }
}

/// Whether a name is `google` or starts with `google `, ignoring ASCII case.
fn is_google_name(name: &str) -> (b: bool)
    ensures
        b == spec_is_google_name(name@),
{
    let chars = chars_of(name);
    let lowered = lower_chars(chars.as_slice());
    let google = chars_of("google");
    let google_space = chars_of("google ");
    eq_chars(lowered.as_slice(), google.as_slice()) || starts_with_chars(
        lowered.as_slice(),
        google_space.as_slice(),
    )
}

/// Detects how a Gemini provider authenticates, in order of priority: the
/// partner promotion key; explicit OAuth markers in the settings; the
/// official category without an API key; no API key with an empty or Google
/// endpoint; a Google name; PackyCode keywords in the name, website or base
/// URL. Anything else is generic.
pub fn detect_gemini_auth_type(provider: &Provider) -> (t: GeminiAuthType)
    ensures
        t == spec_detect_gemini_auth_type(*provider),
{
    if partner_key_matches(provider, "google-official") {
        return GeminiAuthType::GoogleOfficial;
    }
    if partner_key_matches(provider, "packycode") {
        return GeminiAuthType::Packycode;
    }
    if has_oauth_selected_type(provider) || has_oauth_auth_files(provider) {
        return GeminiAuthType::GoogleOfficial;
    }
    if is_official_category_without_api_key(provider) {
        return GeminiAuthType::GoogleOfficial;
    }
    if is_likely_google_oauth_without_api_key(provider) {
        return GeminiAuthType::GoogleOfficial;
    }
    if is_google_name(provider.name.as_str()) {
        return GeminiAuthType::GoogleOfficial;
    }
    if contains_packycode_keyword(provider.name.as_str()) {
        return GeminiAuthType::Packycode;
    }
    if let Some(site) = &provider.website_url {
        if contains_packycode_keyword(site.as_str()) {
            return GeminiAuthType::Packycode;
        }
    }
    if let Some(base_url) = get_gemini_base_url(provider) {
        if contains_packycode_keyword(base_url) {
            return GeminiAuthType::Packycode;
        }
    }
    GeminiAuthType::Generic
}

/// Whether a provider is the Google official Gemini provider (OAuth).
pub fn is_google_official_gemini(provider: &Provider) -> (b: bool)
    ensures
        b == (spec_detect_gemini_auth_type(*provider) == GeminiAuthType::GoogleOfficial),
{
    let t = detect_gemini_auth_type(provider);
    match t {
        GeminiAuthType::GoogleOfficial => true,
        _ => false,
    }
}

} // verus!
