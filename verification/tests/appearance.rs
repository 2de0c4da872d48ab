use orbok::appearance::{
    parse_locale, parse_theme, resolve_locale, resolved_theme, Locale, Theme,
};
use orbok::settings::OrbokSettings;

#[test]
fn default_settings_resolve_through_to_os_detection() {
    let settings = OrbokSettings::default();
    assert_eq!(resolve_locale(&settings.locale, None, Some(Locale::Ja)), Locale::Ja);
}

#[test]
fn default_settings_locale_is_not_a_parseable_locale() {
    assert_eq!(parse_locale(&OrbokSettings::default().locale), None);
}

#[test]
fn explicit_en_setting_wins_over_a_japanese_environment() {
    assert_eq!(resolve_locale("en", None, Some(Locale::Ja)), Locale::En);
}

#[test]
fn catalog_locale_wins_over_environment_when_settings_is_auto() {
    assert_eq!(resolve_locale("auto", Some("ja"), Some(Locale::En)), Locale::Ja);
}

#[test]
fn falls_back_to_default_when_nothing_resolves() {
    assert_eq!(resolve_locale("auto", None, None), Locale::En);
    assert_eq!(resolve_locale("auto", Some("xx"), None), Locale::En);
}

#[test]
fn a_stored_theme_is_kept_and_system_follows_the_system() {
    assert_eq!(parse_theme("dark"), Theme::Dark);
    assert_eq!(parse_theme("high_contrast_light"), Theme::HighContrastLight);
    assert_eq!(parse_theme("system"), Theme::System);
    assert_eq!(parse_theme("neon"), Theme::System);
    assert_eq!(resolved_theme(Theme::Dark, Some(Theme::Light)), Theme::Dark);
    assert_eq!(resolved_theme(Theme::System, Some(Theme::Dark)), Theme::Dark);
    assert_eq!(resolved_theme(Theme::System, None), Theme::Light);
}
