//! Properties of Gemini authentication detection.

use vstd::prelude::*;

use crate::gemini_auth::{
    google_official_partner_key, oauth_evidence, oauth_personal, packycode_evidence,
    packycode_keywords, packycode_partner_key, partner_key_is, spec_contains_packycode_keyword,
    spec_detect_gemini_auth_type, spec_gemini_base_url, spec_has_any_gemini_api_key,
    spec_has_non_empty_env_value, spec_has_oauth_selected_type, spec_is_google_name, spec_is_google_official_base_url,
    spec_is_official_category_without_api_key, GeminiAuthType,
};
use crate::provider::{env_value, partner_key, Provider};
use crate::text::{
    ascii_lower, contains, eq_ignore_ascii_case, is_blank, is_white_space, lemma_not_blank, lower,
    occurs_at, starts_with, trim,
};

verus! {

/// A partner promotion key of `google-official` (in any ASCII case) makes a
/// provider Google official, whatever else it holds.
pub proof fn lemma_google_partner_key_wins(p: Provider)
    requires
        partner_key_is(p, google_official_partner_key()),
    ensures
        spec_detect_gemini_auth_type(p) == GeminiAuthType::GoogleOfficial,
{
}

/// A partner promotion key of `packycode` (in any ASCII case) makes a
/// provider PackyCode, whatever else it holds (its partner key cannot also
/// be `google-official`).
pub proof fn lemma_packycode_partner_key_wins(p: Provider)
    requires
        partner_key_is(p, packycode_partner_key()),
    ensures
        spec_detect_gemini_auth_type(p) == GeminiAuthType::Packycode,
{
    reveal_strlit("packycode");
    reveal_strlit("google-official");
    let k = partner_key(p)->0;
    assert(lower(k) == lower("packycode"@));
    assert(lower(k).len() == 9);
    assert(lower("google-official"@).len() == 15);
}

/// Without a deciding partner key, an explicit OAuth marker, the official
/// category without an API key, no API key with a missing, blank or Google
/// endpoint, or a Google name make a provider Google official.
pub proof fn lemma_oauth_evidence_gives_google_official(p: Provider)
    requires
        !partner_key_is(p, packycode_partner_key()),
        oauth_evidence(p),
    ensures
        spec_detect_gemini_auth_type(p) == GeminiAuthType::GoogleOfficial,
{
}

/// `config.security.auth.selectedType = "oauth-personal"` makes a provider
/// Google official whatever its name, unless its partner key is PackyCode's.
pub proof fn lemma_oauth_selected_type_gives_google_official(p: Provider)
    requires
        !partner_key_is(p, packycode_partner_key()),
        p.settings_config.auth_selected_type.deep_view() == Some(oauth_personal()),
    ensures
        spec_detect_gemini_auth_type(p) == GeminiAuthType::GoogleOfficial,
{
}

/// A provider without an API key whose Gemini base URL is missing, blank or
/// a Google endpoint is Google official, unless its partner key is
/// PackyCode's.
pub proof fn lemma_no_api_key_and_google_endpoint_gives_google_official(p: Provider)
    requires
        !partner_key_is(p, packycode_partner_key()),
        !spec_has_any_gemini_api_key(p),
        match spec_gemini_base_url(p) {
            None => true,
            Some(url) => is_blank(url) || spec_is_google_official_base_url(url),
        },
    ensures
        spec_detect_gemini_auth_type(p) == GeminiAuthType::GoogleOfficial,
{
}

/// With an API key, only the partner key, an explicit OAuth selection or a
/// Google name make a provider Google official: enabled OAuth auth files,
/// the official category and the endpoint are then no evidence of OAuth.
pub proof fn lemma_api_key_limits_oauth_evidence(p: Provider)
    requires
        spec_has_any_gemini_api_key(p),
    ensures
        spec_detect_gemini_auth_type(p) == GeminiAuthType::GoogleOfficial <==> (partner_key_is(
            p,
            google_official_partner_key(),
        ) || (!partner_key_is(p, packycode_partner_key()) && (spec_has_oauth_selected_type(p)
            || spec_is_google_name(p.name@)))),
{
    reveal_strlit("packycode");
    reveal_strlit("google-official");
    if partner_key_is(p, packycode_partner_key()) {
        lemma_packycode_partner_key_wins(p);
    }
}

/// A PackyCode keyword in the name, website or base URL makes a provider
/// PackyCode when neither the partner key nor any OAuth evidence decides.
pub proof fn lemma_packycode_keyword_gives_packycode(p: Provider)
    requires
        !partner_key_is(p, google_official_partner_key()),
        !oauth_evidence(p),
        packycode_evidence(p),
    ensures
        spec_detect_gemini_auth_type(p) == GeminiAuthType::Packycode,
{
}

/// A provider comes out generic only when it has an API key, or a base URL
/// that is neither blank nor a Google endpoint.
pub proof fn lemma_generic_needs_api_key_or_custom_endpoint(p: Provider)
    requires
        spec_detect_gemini_auth_type(p) == GeminiAuthType::Generic,
    ensures
        spec_has_any_gemini_api_key(p) || (spec_gemini_base_url(p) matches Some(url) && !is_blank(
            url,
        ) && !spec_is_google_official_base_url(url)),
{
}

/// Checking the three PackyCode keywords is the same as looking for
/// `packy`, ignoring ASCII case.
pub proof fn lemma_packycode_keyword_is_packy(s: Seq<char>)
    ensures
        spec_contains_packycode_keyword(s) <==> contains(lower(s), "packy"@),
{
    reveal_strlit("packycode");
    reveal_strlit("packyapi");
    reveal_strlit("packy");
    let l = lower(s);
    let keys = packycode_keywords();
    if spec_contains_packycode_keyword(s) {
        let k = choose|k: int| 0 <= k < 3 && contains(l, #[trigger] keys[k]);
        let i = choose|i: int| occurs_at(l, keys[k], i);
        assert(l.subrange(i, i + 5) =~= l.subrange(i, i + keys[k].len()).subrange(0, 5));
        assert(keys[k].subrange(0, 5) =~= "packy"@);
        assert(occurs_at(l, "packy"@, i));
    }
    if contains(l, "packy"@) {
        assert(keys[2] == "packy"@);
        assert(contains(l, keys[2]));
    }
}

/// The ASCII-lowercased form of an optional string.
pub open spec fn lower_opt(s: Option<Seq<char>>) -> Option<Seq<char>> {
    match s {
        Some(v) => Some(lower(v)),
        None => None,
    }
}

/// Detection ignores ASCII case in the name, website, category and partner
/// key: two providers with the same settings whose other fields are equal up
/// to ASCII case get the same authentication type.
pub proof fn lemma_detection_ignores_ascii_case(p: Provider, q: Provider)
    requires
        p.settings_config == q.settings_config,
        lower(p.name@) == lower(q.name@),
        lower_opt(p.website_url.deep_view()) == lower_opt(q.website_url.deep_view()),
        lower_opt(p.category.deep_view()) == lower_opt(q.category.deep_view()),
        lower_opt(partner_key(p)) == lower_opt(partner_key(q)),
    ensures
        spec_detect_gemini_auth_type(p) == spec_detect_gemini_auth_type(q),
{
    assert(spec_has_any_gemini_api_key(p) == spec_has_any_gemini_api_key(q));
    assert(spec_gemini_base_url(p) == spec_gemini_base_url(q));
    assert(partner_key_is(p, google_official_partner_key()) == partner_key_is(
        q,
        google_official_partner_key(),
    ));
    assert(partner_key_is(p, packycode_partner_key()) == partner_key_is(
        q,
        packycode_partner_key(),
    ));
    assert(spec_is_official_category_without_api_key(p)
        == spec_is_official_category_without_api_key(q));
    assert(spec_contains_packycode_keyword(p.name@) == spec_contains_packycode_keyword(q.name@));
    assert(packycode_evidence(p) == packycode_evidence(q));
    assert(oauth_evidence(p) == oauth_evidence(q));
}

/// The optional value is present and something is left of it once trimmed.
pub open spec fn has_text(v: Option<Seq<char>>) -> bool {
    v matches Some(s) && trim(s).len() > 0
}

/// The provider's partner key equals `key` up to ASCII case.
pub open spec fn partner_key_eq(p: Provider, key: Seq<char>) -> bool {
    partner_key(p) matches Some(k) && eq_ignore_ascii_case(k, key)
}

/// The provider's `env` value for `key`.
pub open spec fn env_of(p: Provider, key: Seq<char>) -> Option<Seq<char>> {
    env_value(p.settings_config.env@, key)
}

/// An `env` value counts as set exactly when something is left of it after
/// trimming; in particular the empty string and white space count as unset.
pub proof fn lemma_env_value_counts_when_not_blank(p: Provider, key: Seq<char>)
    ensures
        spec_has_non_empty_env_value(p, key) <==> has_text(env_of(p, key)),
        env_of(p, key) == Some(Seq::<char>::empty()) ==> !spec_has_non_empty_env_value(p, key),
{
    if env_of(p, key) == Some(Seq::<char>::empty()) {
        assert(trim(Seq::<char>::empty()) =~= Seq::<char>::empty());
    }
}

/// A provider whose API-key entries are missing, empty or blank and which
/// has no Gemini base URL is Google official (the OAuth fallback), unless its
/// partner key is PackyCode's.
pub proof fn lemma_blank_api_keys_without_endpoint_give_google_official(p: Provider)
    requires
        !has_text(env_of(p, "GEMINI_API_KEY"@)),
        !has_text(env_of(p, "GOOGLE_API_KEY"@)),
        env_of(p, "GOOGLE_GEMINI_BASE_URL"@) is None,
        !partner_key_eq(p, "packycode"@),
    ensures
        spec_detect_gemini_auth_type(p) == GeminiAuthType::GoogleOfficial,
{
    lemma_env_value_counts_when_not_blank(p, "GEMINI_API_KEY"@);
    lemma_env_value_counts_when_not_blank(p, "GOOGLE_API_KEY"@);
}

/// A base URL containing `packy` (in any ASCII case) is not blank.
proof fn lemma_packy_text_is_not_blank(url: Seq<char>)
    requires
        contains(lower(url), "packy"@),
    ensures
        !is_blank(url),
{
    reveal_strlit("packy");
    let i = choose|i: int| occurs_at(lower(url), "packy"@, i);
    assert(lower(url).subrange(i, i + 5)[0] == lower(url)[i]);
    assert(lower(url)[i] == 'p');
    assert(ascii_lower(url[i]) == 'p');
    if is_white_space(url[i]) {
        assert(ascii_lower(url[i]) == url[i]);
    }
    lemma_not_blank(url, i);
}

/// Without a deciding partner key and without OAuth evidence, a Gemini base
/// URL containing `packy` (ignoring ASCII case) makes the provider PackyCode,
/// whatever its website is. OAuth evidence is ruled out by: no
/// `oauth-personal` selection, a name that is not Google's, and either an API
/// key or (no enabled auth files, no official category, and a base URL naming
/// no Google host).
pub proof fn lemma_packy_base_url_gives_packycode(p: Provider, url: Seq<char>)
    requires
        !partner_key_eq(p, "google-official"@),
        !partner_key_eq(p, "packycode"@),
        p.settings_config.auth_selected_type.deep_view() != Some("oauth-personal"@),
        lower(p.name@) != "google"@,
        !starts_with(lower(p.name@), "google "@),
        env_of(p, "GOOGLE_GEMINI_BASE_URL"@) == Some(url),
        contains(lower(url), "packy"@),
        has_text(env_of(p, "GEMINI_API_KEY"@)) || has_text(env_of(p, "GOOGLE_API_KEY"@)) || (
        p.settings_config.auth_files_enabled != Some(true) && !(p.category.deep_view() matches Some(
            c,
        ) && eq_ignore_ascii_case(c, "official"@)) && !contains(
            lower(trim(url)),
            "generativelanguage.googleapis.com"@,
        ) && !contains(lower(trim(url)), "ai.google.dev"@)),
    ensures
        spec_detect_gemini_auth_type(p) == GeminiAuthType::Packycode,
{
    lemma_env_value_counts_when_not_blank(p, "GEMINI_API_KEY"@);
    lemma_env_value_counts_when_not_blank(p, "GOOGLE_API_KEY"@);
    lemma_packy_text_is_not_blank(url);
    lemma_packycode_keyword_is_packy(url);
    assert(!oauth_evidence(p));
    assert(packycode_evidence(p));
}

/// Detection gives PackyCode only for a PackyCode partner key, or for `packy`
/// (ignoring ASCII case) in the name, the website or the Gemini base URL.
pub proof fn lemma_packycode_needs_partner_key_or_keyword(p: Provider)
    requires
        spec_detect_gemini_auth_type(p) == GeminiAuthType::Packycode,
    ensures
        ({
            ||| partner_key_eq(p, "packycode"@)
            ||| contains(lower(p.name@), "packy"@)
            ||| (p.website_url.deep_view() matches Some(site) && contains(lower(site), "packy"@))
            ||| (env_of(p, "GOOGLE_GEMINI_BASE_URL"@) matches Some(url) && contains(
                lower(url),
                "packy"@,
            ))
        }),
{
    lemma_packycode_keyword_is_packy(p.name@);
    if let Some(site) = p.website_url.deep_view() {
        lemma_packycode_keyword_is_packy(site);
    }
    if let Some(url) = env_of(p, "GOOGLE_GEMINI_BASE_URL"@) {
        lemma_packycode_keyword_is_packy(url);
    }
}

/// A provider with an API key, no deciding partner key, no `oauth-personal`
/// selection, a name that is not Google's and no `packy` in its name, website
/// or Gemini base URL is generic.
pub proof fn lemma_plain_api_key_provider_is_generic(p: Provider)
    requires
        has_text(env_of(p, "GEMINI_API_KEY"@)) || has_text(env_of(p, "GOOGLE_API_KEY"@)),
        !partner_key_eq(p, "google-official"@),
        !partner_key_eq(p, "packycode"@),
        p.settings_config.auth_selected_type.deep_view() != Some("oauth-personal"@),
        lower(p.name@) != "google"@,
        !starts_with(lower(p.name@), "google "@),
        !contains(lower(p.name@), "packy"@),
        !(p.website_url.deep_view() matches Some(site) && contains(lower(site), "packy"@)),
        !(env_of(p, "GOOGLE_GEMINI_BASE_URL"@) matches Some(url) && contains(lower(url), "packy"@)),
    ensures
        spec_detect_gemini_auth_type(p) == GeminiAuthType::Generic,
{
    lemma_env_value_counts_when_not_blank(p, "GEMINI_API_KEY"@);
    lemma_env_value_counts_when_not_blank(p, "GOOGLE_API_KEY"@);
    lemma_packycode_keyword_is_packy(p.name@);
    if let Some(site) = p.website_url.deep_view() {
        lemma_packycode_keyword_is_packy(site);
    }
    if let Some(url) = env_of(p, "GOOGLE_GEMINI_BASE_URL"@) {
        lemma_packycode_keyword_is_packy(url);
    }
    assert(!oauth_evidence(p));
    assert(!packycode_evidence(p));
}

/// The provider has a non-blank `GEMINI_API_KEY` or `GOOGLE_API_KEY`.
pub open spec fn key_present(p: Provider) -> bool {
    has_text(env_of(p, "GEMINI_API_KEY"@)) || has_text(env_of(p, "GOOGLE_API_KEY"@))
}

/// The provider's name is `google` or starts with `google `, ignoring ASCII case.
pub open spec fn google_named(p: Provider) -> bool {
    lower(p.name@) == "google"@ || starts_with(lower(p.name@), "google "@)
}

/// `packy` occurs, ignoring ASCII case, in the name, the website or the
/// Gemini base URL.
pub open spec fn packy_mentioned(p: Provider) -> bool {
    ||| contains(lower(p.name@), "packy"@)
    ||| (p.website_url.deep_view() matches Some(site) && contains(lower(site), "packy"@))
    ||| (env_of(p, "GOOGLE_GEMINI_BASE_URL"@) matches Some(url) && contains(lower(url), "packy"@))
}

/// A text names a Google Gemini host once trimmed and lowercased.
pub open spec fn names_google_host(url: Seq<char>) -> bool {
    contains(lower(trim(url)), "generativelanguage.googleapis.com"@) || contains(
        lower(trim(url)),
        "ai.google.dev"@,
    )
}

/// Naming a Google host is the same as passing the Google-endpoint test.
proof fn lemma_google_host_test(url: Seq<char>)
    ensures
        spec_is_google_official_base_url(url) <==> names_google_host(url),
{
    reveal_strlit("generativelanguage.googleapis.com");
    reveal_strlit("ai.google.dev");
    let l = lower(trim(url));
    if contains(l, "generativelanguage.googleapis.com"@) {
        let i = choose|i: int| occurs_at(l, "generativelanguage.googleapis.com"@, i);
        assert(l.len() > 0);
    }
    if contains(l, "ai.google.dev"@) {
        let i = choose|i: int| occurs_at(l, "ai.google.dev"@, i);
        assert(l.len() > 0);
    }
}

/// Without a PackyCode partner key, each of these makes a provider Google
/// official: the `oauth-personal` selection; enabled auth files without an
/// API key; the `official` category (any ASCII case) without an API key; no
/// API key with a Gemini base URL that is missing, blank or names a Google
/// host; a Google name.
pub proof fn lemma_oauth_signals_give_google_official(p: Provider)
    requires
        !partner_key_eq(p, "packycode"@),
        ({
            ||| p.settings_config.auth_selected_type.deep_view() == Some("oauth-personal"@)
            ||| (p.settings_config.auth_files_enabled == Some(true) && !key_present(p))
            ||| (p.category.deep_view() matches Some(c) && eq_ignore_ascii_case(c, "official"@)
                && !key_present(p))
            ||| (!key_present(p) && match env_of(p, "GOOGLE_GEMINI_BASE_URL"@) {
                None => true,
                Some(url) => !has_text(Some(url)) || names_google_host(url),
            })
            ||| google_named(p)
        }),
    ensures
        spec_detect_gemini_auth_type(p) == GeminiAuthType::GoogleOfficial,
{
    lemma_env_value_counts_when_not_blank(p, "GEMINI_API_KEY"@);
    lemma_env_value_counts_when_not_blank(p, "GOOGLE_API_KEY"@);
    if let Some(url) = env_of(p, "GOOGLE_GEMINI_BASE_URL"@) {
        lemma_google_host_test(url);
    }
    assert(oauth_evidence(p));
}

/// When neither the partner key nor any OAuth signal decides (no
/// `oauth-personal` selection, no Google name, and either an API key or,
/// without one, no enabled auth files, no official category and a non-blank
/// Gemini base URL naming no Google host), a provider is PackyCode exactly
/// when `packy` occurs in its name, website or Gemini base URL, and generic
/// otherwise.
pub proof fn lemma_without_oauth_signal_packy_decides(p: Provider)
    requires
        !partner_key_eq(p, "google-official"@),
        !partner_key_eq(p, "packycode"@),
        p.settings_config.auth_selected_type.deep_view() != Some("oauth-personal"@),
        !google_named(p),
        key_present(p) || ({
            &&& p.settings_config.auth_files_enabled != Some(true)
            &&& !(p.category.deep_view() matches Some(c) && eq_ignore_ascii_case(c, "official"@))
            &&& env_of(p, "GOOGLE_GEMINI_BASE_URL"@) matches Some(url) && has_text(Some(url))
                && !names_google_host(url)
        }),
    ensures
        spec_detect_gemini_auth_type(p) == (if packy_mentioned(p) {
            GeminiAuthType::Packycode
        } else {
            GeminiAuthType::Generic
        }),
{
    lemma_env_value_counts_when_not_blank(p, "GEMINI_API_KEY"@);
    lemma_env_value_counts_when_not_blank(p, "GOOGLE_API_KEY"@);
    lemma_packycode_keyword_is_packy(p.name@);
    if let Some(site) = p.website_url.deep_view() {
        lemma_packycode_keyword_is_packy(site);
    }
    if let Some(url) = env_of(p, "GOOGLE_GEMINI_BASE_URL"@) {
        lemma_packycode_keyword_is_packy(url);
        lemma_google_host_test(url);
    }
    assert(!oauth_evidence(p));
    assert(packycode_evidence(p) == packy_mentioned(p));
}

/// The partner key decides first, ignoring ASCII case: `google-official`
/// makes a provider Google official and `packycode` makes it PackyCode,
/// whatever else the provider holds.
pub proof fn lemma_partner_key_decides_first(p: Provider)
    ensures
        partner_key_eq(p, "google-official"@) ==> spec_detect_gemini_auth_type(p)
            == GeminiAuthType::GoogleOfficial,
        partner_key_eq(p, "packycode"@) ==> spec_detect_gemini_auth_type(p)
            == GeminiAuthType::Packycode,
{
    if partner_key_eq(p, "packycode"@) {
        lemma_packycode_partner_key_wins(p);
    }
}

} // verus!
