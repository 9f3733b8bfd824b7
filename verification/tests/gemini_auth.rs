use cc_switch::gemini_auth::{
    contains_packycode_keyword, detect_gemini_auth_type, get_gemini_base_url,
    has_any_gemini_api_key, has_non_empty_env_value, has_oauth_auth_files,
    has_oauth_selected_type, is_google_official_base_url, is_google_official_gemini,
    is_likely_google_oauth_without_api_key, is_official_category_without_api_key, GeminiAuthType,
};
use cc_switch::provider::{Provider, ProviderMeta, SettingsConfig};

fn build_provider(name: &str, category: Option<&str>, settings: SettingsConfig) -> Provider {
    let mut provider = Provider::with_id(
        "gemini-test".to_string(),
        name.to_string(),
        settings,
        Some("https://example.com".to_string()),
    );
    provider.category = category.map(|value| value.to_string());
    provider
}

fn with_partner_key(mut provider: Provider, key: &str) -> Provider {
    provider.meta = Some(ProviderMeta {
        partner_promotion_key: Some(key.to_string()),
    });
    provider
}

#[test]
fn detect_google_official_from_oauth_selected_type_even_with_custom_name() {
    let provider = build_provider(
        "Imported Config",
        Some("custom"),
        SettingsConfig::new().with_auth_selected_type("oauth-personal"),
    );

    assert_eq!(
        detect_gemini_auth_type(&provider),
        GeminiAuthType::GoogleOfficial
    );
}

#[test]
fn detect_google_official_from_auth_files_without_api_key() {
    let provider = build_provider(
        "Imported Config",
        Some("custom"),
        SettingsConfig::new().with_auth_files_enabled(true),
    );

    assert_eq!(
        detect_gemini_auth_type(&provider),
        GeminiAuthType::GoogleOfficial
    );
}

#[test]
fn auth_files_with_api_key_is_not_forced_to_google_official() {
    let provider = build_provider(
        "Imported Config",
        Some("custom"),
        SettingsConfig::new()
            .with_env("GEMINI_API_KEY", "sk-test")
            .with_auth_files_enabled(true),
    );

    assert_ne!(
        detect_gemini_auth_type(&provider),
        GeminiAuthType::GoogleOfficial
    );
}

#[test]
fn detect_google_official_when_no_api_key_and_empty_base_url() {
    let provider = build_provider(
        "Imported Config",
        Some("custom"),
        SettingsConfig::new().with_env("GEMINI_MODEL", "gemini-3-pro-preview"),
    );

    assert_eq!(
        detect_gemini_auth_type(&provider),
        GeminiAuthType::GoogleOfficial
    );
}

#[test]
fn detect_google_official_when_no_api_key_and_google_base_url() {
    let provider = build_provider(
        "Imported Config",
        Some("custom"),
        SettingsConfig::new()
            .with_env(
                "GOOGLE_GEMINI_BASE_URL",
                "https://generativelanguage.googleapis.com",
            )
            .with_env("GEMINI_MODEL", "gemini-3-pro-preview"),
    );

    assert_eq!(
        detect_gemini_auth_type(&provider),
        GeminiAuthType::GoogleOfficial
    );
}

#[test]
fn no_api_key_with_custom_base_url_is_not_google_official() {
    let provider = build_provider(
        "Imported Config",
        Some("custom"),
        SettingsConfig::new()
            .with_env("GOOGLE_GEMINI_BASE_URL", "https://custom-gateway.example.com")
            .with_env("GEMINI_MODEL", "gemini-3-pro-preview"),
    );

    assert_eq!(detect_gemini_auth_type(&provider), GeminiAuthType::Generic);
}

#[test]
fn packycode_partner_key_wins_without_keywords() {
    let provider = with_partner_key(
        build_provider(
            "Generic Gemini",
            None,
            SettingsConfig::new()
                .with_env("GEMINI_API_KEY", "pk-meta")
                .with_env(
                    "GOOGLE_GEMINI_BASE_URL",
                    "https://generativelanguage.googleapis.com",
                ),
        ),
        "packycode",
    );
    assert_eq!(detect_gemini_auth_type(&provider), GeminiAuthType::Packycode);
}

#[test]
fn packycode_partner_key_wins_over_oauth_markers() {
    let provider = with_partner_key(
        build_provider(
            "Google",
            Some("official"),
            SettingsConfig::new().with_auth_selected_type("oauth-personal"),
        ),
        "PackyCode",
    );
    assert_eq!(detect_gemini_auth_type(&provider), GeminiAuthType::Packycode);
}

#[test]
fn google_partner_key_wins_in_any_case() {
    let provider = with_partner_key(
        build_provider(
            "packycode mirror",
            None,
            SettingsConfig::new().with_env("GEMINI_API_KEY", "sk"),
        ),
        "GOOGLE-Official",
    );
    assert_eq!(
        detect_gemini_auth_type(&provider),
        GeminiAuthType::GoogleOfficial
    );
}

#[test]
fn unknown_partner_key_falls_through() {
    let provider = with_partner_key(
        build_provider(
            "Other",
            None,
            SettingsConfig::new()
                .with_env("GEMINI_API_KEY", "sk")
                .with_env("GOOGLE_GEMINI_BASE_URL", "https://other.example.com"),
        ),
        "someone-else",
    );
    assert_eq!(detect_gemini_auth_type(&provider), GeminiAuthType::Generic);
}

#[test]
fn google_official_with_partner_meta_and_oauth_env() {
    let mut provider = Provider::with_id(
        "google-official".to_string(),
        "Google".to_string(),
        SettingsConfig::new().with_env("GOOGLE_CLOUD_PROJECT", "oauth-project"),
        Some("https://ai.google.dev".to_string()),
    );
    provider.meta = Some(ProviderMeta {
        partner_promotion_key: Some("google-official".to_string()),
    });
    assert!(is_google_official_gemini(&provider));
}

#[test]
fn packycode_by_name_with_api_key() {
    let provider = Provider::with_id(
        "packy-gemini".to_string(),
        "PackyCode".to_string(),
        SettingsConfig::new()
            .with_env("GEMINI_API_KEY", "pk-key")
            .with_env("GOOGLE_GEMINI_BASE_URL", "https://www.packyapi.com"),
        Some("https://www.packyapi.com".to_string()),
    );
    assert_eq!(detect_gemini_auth_type(&provider), GeminiAuthType::Packycode);
    assert!(!is_google_official_gemini(&provider));
}

#[test]
fn packycode_by_website_keyword() {
    let provider = Provider::with_id(
        "p".to_string(),
        "Some Relay".to_string(),
        SettingsConfig::new()
            .with_env("GEMINI_API_KEY", "k")
            .with_env("GOOGLE_GEMINI_BASE_URL", "https://relay.example.com"),
        Some("https://PACKY.example.com".to_string()),
    );
    assert_eq!(detect_gemini_auth_type(&provider), GeminiAuthType::Packycode);
}

#[test]
fn packycode_by_base_url_keyword() {
    let provider = Provider::with_id(
        "p".to_string(),
        "Some Relay".to_string(),
        SettingsConfig::new()
            .with_env("GOOGLE_API_KEY", "k")
            .with_env("GOOGLE_GEMINI_BASE_URL", "https://api.packyapi.com/v1"),
        None,
    );
    assert_eq!(detect_gemini_auth_type(&provider), GeminiAuthType::Packycode);
}

#[test]
fn imported_profile_without_api_key_and_without_website_is_google_official() {
    let provider = Provider::with_id(
        "imported-gemini".to_string(),
        "Imported Config".to_string(),
        SettingsConfig::new()
            .with_env("GEMINI_MODEL", "gemini-3-pro-preview")
            .with_env("GOOGLE_CLOUD_PROJECT", "imported-project"),
        None,
    );
    assert_eq!(
        detect_gemini_auth_type(&provider),
        GeminiAuthType::GoogleOfficial
    );
}

#[test]
fn google_name_with_api_key_is_google_official() {
    let with_space = build_provider(
        "Google AI Studio",
        None,
        SettingsConfig::new()
            .with_env("GEMINI_API_KEY", "k")
            .with_env("GOOGLE_GEMINI_BASE_URL", "https://proxy.example.com"),
    );
    assert_eq!(
        detect_gemini_auth_type(&with_space),
        GeminiAuthType::GoogleOfficial
    );
    let exact = build_provider(
        "GOOGLE",
        None,
        SettingsConfig::new()
            .with_env("GEMINI_API_KEY", "k")
            .with_env("GOOGLE_GEMINI_BASE_URL", "https://proxy.example.com"),
    );
    assert_eq!(
        detect_gemini_auth_type(&exact),
        GeminiAuthType::GoogleOfficial
    );
    let glued = build_provider(
        "GoogleProxy",
        None,
        SettingsConfig::new()
            .with_env("GEMINI_API_KEY", "k")
            .with_env("GOOGLE_GEMINI_BASE_URL", "https://proxy.example.com"),
    );
    assert_eq!(detect_gemini_auth_type(&glued), GeminiAuthType::Generic);
}

#[test]
fn official_category_without_api_key_is_google_official() {
    let provider = build_provider(
        "Custom",
        Some("OFFICIAL"),
        SettingsConfig::new().with_env("GOOGLE_GEMINI_BASE_URL", "https://custom.example.com"),
    );
    assert!(is_official_category_without_api_key(&provider));
    assert_eq!(
        detect_gemini_auth_type(&provider),
        GeminiAuthType::GoogleOfficial
    );
}

#[test]
fn official_category_with_api_key_is_not_forced() {
    let provider = build_provider(
        "Custom",
        Some("official"),
        SettingsConfig::new()
            .with_env("GEMINI_API_KEY", "k")
            .with_env("GOOGLE_GEMINI_BASE_URL", "https://custom.example.com"),
    );
    assert!(!is_official_category_without_api_key(&provider));
    assert_eq!(detect_gemini_auth_type(&provider), GeminiAuthType::Generic);
}

#[test]
fn blank_api_key_counts_as_missing() {
    let provider = build_provider(
        "Imported Config",
        None,
        SettingsConfig::new().with_env("GEMINI_API_KEY", " \t\n "),
    );
    assert!(!has_non_empty_env_value(&provider, "GEMINI_API_KEY"));
    assert!(!has_any_gemini_api_key(&provider));
    assert_eq!(
        detect_gemini_auth_type(&provider),
        GeminiAuthType::GoogleOfficial
    );
}

#[test]
fn env_lookup_takes_exact_key() {
    let provider = build_provider(
        "x",
        None,
        SettingsConfig::new()
            .with_env("gemini_api_key", "lower")
            .with_env("GOOGLE_API_KEY", "  padded  "),
    );
    assert!(!has_non_empty_env_value(&provider, "GEMINI_API_KEY"));
    assert!(has_non_empty_env_value(&provider, "GOOGLE_API_KEY"));
    assert!(has_any_gemini_api_key(&provider));
    assert!(!has_non_empty_env_value(&provider, "MISSING"));
}

#[test]
fn oauth_selected_type_is_case_sensitive() {
    let upper = build_provider(
        "x",
        None,
        SettingsConfig::new().with_auth_selected_type("OAUTH-PERSONAL"),
    );
    assert!(!has_oauth_selected_type(&upper));
    let exact = build_provider(
        "x",
        None,
        SettingsConfig::new().with_auth_selected_type("oauth-personal"),
    );
    assert!(has_oauth_selected_type(&exact));
    let api_key = build_provider(
        "x",
        None,
        SettingsConfig::new().with_auth_selected_type("gemini-api-key"),
    );
    assert!(!has_oauth_selected_type(&api_key));
}

#[test]
fn auth_files_disabled_is_no_oauth_marker() {
    let provider = build_provider(
        "x",
        None,
        SettingsConfig::new().with_auth_files_enabled(false),
    );
    assert!(!has_oauth_auth_files(&provider));
    let enabled = build_provider(
        "x",
        None,
        SettingsConfig::new().with_auth_files_enabled(true),
    );
    assert!(has_oauth_auth_files(&enabled));
}

#[test]
fn base_url_lookup() {
    let provider = build_provider(
        "x",
        None,
        SettingsConfig::new().with_env("GOOGLE_GEMINI_BASE_URL", " https://a.example "),
    );
    assert_eq!(
        get_gemini_base_url(&provider),
        Some(" https://a.example ")
    );
    let none = build_provider("x", None, SettingsConfig::new());
    assert_eq!(get_gemini_base_url(&none), None);
}

#[test]
fn google_official_base_url_examples() {
    assert!(is_google_official_base_url(
        "https://generativelanguage.googleapis.com"
    ));
    assert!(is_google_official_base_url(
        "  HTTPS://GenerativeLanguage.GoogleAPIs.com/v1beta  "
    ));
    assert!(is_google_official_base_url("https://ai.google.dev"));
    assert!(!is_google_official_base_url("https://custom-gateway.example.com"));
    assert!(!is_google_official_base_url(""));
    assert!(!is_google_official_base_url("   "));
}

#[test]
fn likely_google_oauth_examples() {
    let blank = build_provider(
        "x",
        None,
        SettingsConfig::new().with_env("GOOGLE_GEMINI_BASE_URL", "   "),
    );
    assert!(is_likely_google_oauth_without_api_key(&blank));
    let custom = build_provider(
        "x",
        None,
        SettingsConfig::new().with_env("GOOGLE_GEMINI_BASE_URL", "https://x.example"),
    );
    assert!(!is_likely_google_oauth_without_api_key(&custom));
    let keyed = build_provider(
        "x",
        None,
        SettingsConfig::new().with_env("GEMINI_API_KEY", "k"),
    );
    assert!(!is_likely_google_oauth_without_api_key(&keyed));
}

#[test]
fn packycode_keyword_examples() {
    assert!(contains_packycode_keyword("PackyCode"));
    assert!(contains_packycode_keyword("https://www.PACKYAPI.com"));
    assert!(contains_packycode_keyword("my-packy-relay"));
    assert!(!contains_packycode_keyword("pack y"));
    assert!(!contains_packycode_keyword(""));
    assert!(!contains_packycode_keyword("Generic Gemini"));
}

#[test]
fn detection_ignores_ascii_case_of_name_and_category() {
    let a = build_provider(
        "PACKYCODE",
        Some("Custom"),
        SettingsConfig::new().with_env("GEMINI_API_KEY", "k"),
    );
    let b = build_provider(
        "packycode",
        Some("custom"),
        SettingsConfig::new().with_env("GEMINI_API_KEY", "k"),
    );
    assert_eq!(detect_gemini_auth_type(&a), detect_gemini_auth_type(&b));
    assert_eq!(detect_gemini_auth_type(&a), GeminiAuthType::Packycode);
}

#[test]
fn is_google_official_gemini_follows_detection() {
    let generic = build_provider(
        "Relay",
        None,
        SettingsConfig::new()
            .with_env("GEMINI_API_KEY", "k")
            .with_env("GOOGLE_GEMINI_BASE_URL", "https://relay.example.com"),
    );
    assert_eq!(detect_gemini_auth_type(&generic), GeminiAuthType::Generic);
    assert!(!is_google_official_gemini(&generic));
    let oauth = build_provider(
        "Relay",
        None,
        SettingsConfig::new().with_auth_selected_type("oauth-personal"),
    );
    assert!(is_google_official_gemini(&oauth));
}
