//! The interface language and theme a session starts with.
//!
//! The language follows a priority chain: the settings value, then the
//! value the catalog holds, then the system's language, then English. The
//! settings value `"auto"` names no language, so it falls through to the
//! next step. The stored theme is kept as chosen; `"system"` is shown as
//! the system's own theme, or light when that cannot be told.

use crate::text::text_equal;
use vstd::prelude::*;
use vstd::string::*;

verus! {

broadcast use vstd::string::group_string_axioms;

/// An interface language.
#[derive(Clone, Copy, Debug, PartialEq, Eq, Structural)]
pub enum Locale {
    En,
    Ja,
}

/// The language a code names: `"en"` or `"ja"`; any other code, `"auto"`
/// included, names none.
pub open spec fn locale_of(code: Seq<char>) -> Option<Locale> {
    if code == "en"@ {
        Some(Locale::En)
    } else if code == "ja"@ {
        Some(Locale::Ja)
    } else {
        None
    }
}

/// The code each language is stored under.
pub open spec fn locale_code(locale: Locale) -> Seq<char> {
    match locale {
        Locale::En => "en"@,
        Locale::Ja => "ja"@,
    }
}

/// Each language's code reads back as that language, and a code that names
/// a language is that language's own code; every other code names none.
pub proof fn law_a_locale_code_names_its_own_language(locale: Locale, code: Seq<char>)
    ensures
        locale_of(locale_code(locale)) == Some(locale),
        locale_of(code) matches Some(l) ==> code == locale_code(l),
{
    reveal_strlit("en");
    reveal_strlit("ja");
    assert("en"@ != "ja"@) by {
        assert("en"@[0] == 'e' && "ja"@[0] == 'j');
    }
}

/// A language set in the settings wins over the catalog and the system;
/// with none there, a language the catalog names wins over the system;
/// with neither, the system's language is used, and English without one.
pub proof fn law_the_first_named_language_wins(
    settings_locale: Seq<char>,
    catalog_locale: Option<Seq<char>>,
    env_locale: Option<Locale>,
)
    ensures
        locale_of(settings_locale) matches Some(l) ==> resolved_locale(
            settings_locale,
            catalog_locale,
            env_locale,
        ) == l,
        locale_of(settings_locale) is None && catalog_locale is Some && locale_of(catalog_locale->0) is Some
            ==> resolved_locale(settings_locale, catalog_locale, env_locale) == locale_of(
            catalog_locale->0,
        )->0,
        locale_of(settings_locale) is None && (catalog_locale is None || locale_of(catalog_locale->0) is None)
            ==> resolved_locale(settings_locale, catalog_locale, env_locale) == (match env_locale {
            Some(l) => l,
            None => Locale::En,
        }),
{
}

/// The language a code names (see [`locale_of`]).
pub fn parse_locale(code: &str) -> (r: Option<Locale>)
    ensures
        r == locale_of(code@),
{
    if text_equal(code, "en") {
        Some(Locale::En)
    } else if text_equal(code, "ja") {
        Some(Locale::Ja)
    } else {
        None
    }
}

/// The language a session starts with: the settings value if it names one,
/// else the catalog's value if it names one, else the system's language,
/// else English.
pub open spec fn resolved_locale(
    settings_locale: Seq<char>,
    catalog_locale: Option<Seq<char>>,
    env_locale: Option<Locale>,
) -> Locale {
    match locale_of(settings_locale) {
        Some(l) => l,
        None => match catalog_locale {
            Some(c) if locale_of(c) is Some => locale_of(c)->0,
            _ => match env_locale {
                Some(l) => l,
                None => Locale::En,
            },
        },
    }
}

/// The language a session starts with (see [`resolved_locale`]).
pub fn resolve_locale(settings_locale: &str, catalog_locale: Option<&str>, env_locale: Option<Locale>) -> (r:
    Locale)
    ensures
        r == resolved_locale(
            settings_locale@,
            match catalog_locale {
                Some(c) => Some(c@),
                None => None,
            },
            env_locale,
        ),
{
    if let Some(l) = parse_locale(settings_locale) {
        return l;
    }
    if let Some(c) = catalog_locale {
        if let Some(l) = parse_locale(c) {
            return l;
        }
    }
    match env_locale {
        Some(l) => l,
        None => Locale::En,
    }
}

/// An interface theme.
#[derive(Clone, Copy, Debug, PartialEq, Eq, Structural)]
pub enum Theme {
    System,
    Light,
    Dark,
    HighContrastLight,
    HighContrastDark,
}

/// The theme a stored name names; an unknown name is `System`, the
/// default.
pub open spec fn theme_of(name: Seq<char>) -> Theme {
    if name == "light"@ {
        Theme::Light
    } else if name == "dark"@ {
        Theme::Dark
    } else if name == "high_contrast_light"@ {
        Theme::HighContrastLight
    } else if name == "high_contrast_dark"@ {
        Theme::HighContrastDark
    } else {
        Theme::System
    }
}

/// The name the settings file stores for each theme.
pub open spec fn theme_name(theme: Theme) -> Seq<char> {
    match theme {
        Theme::System => "system"@,
        Theme::Light => "light"@,
        Theme::Dark => "dark"@,
        Theme::HighContrastLight => "high_contrast_light"@,
        Theme::HighContrastDark => "high_contrast_dark"@,
    }
}

/// Every stored theme name reads back as the theme it names, and a name
/// that reads as anything but `System` is that theme's own name: only
/// `system` and unknown names give `System`.
pub proof fn law_a_stored_theme_names_its_own_preset(theme: Theme, name: Seq<char>)
    ensures
        theme_of(theme_name(theme)) == theme,
        theme_of(name) != Theme::System ==> name == theme_name(theme_of(name)),
{
    reveal_strlit("system");
    reveal_strlit("light");
    reveal_strlit("dark");
    reveal_strlit("high_contrast_light");
    reveal_strlit("high_contrast_dark");
    // The five names have five different lengths.
    assert("system"@.len() == 6);
    assert("light"@.len() == 5);
    assert("dark"@.len() == 4);
    assert("high_contrast_light"@.len() == 19);
    assert("high_contrast_dark"@.len() == 18);
}

/// The theme a stored name names (see [`theme_of`]).
pub fn parse_theme(name: &str) -> (r: Theme)
    ensures
        r == theme_of(name@),
{
    if text_equal(name, "light") {
        Theme::Light
    } else if text_equal(name, "dark") {
        Theme::Dark
    } else if text_equal(name, "high_contrast_light") {
        Theme::HighContrastLight
    } else if text_equal(name, "high_contrast_dark") {
        Theme::HighContrastDark
    } else {
        Theme::System
    }
}

/// The theme the session is drawn in: the stored theme, except that
/// `System` is the system's own theme, or light when that is unknown.
pub fn resolved_theme(stored: Theme, env_theme: Option<Theme>) -> (r: Theme)
    ensures
        r == (match stored {
            Theme::System => match env_theme {
                Some(t) => t,
                None => Theme::Light,
            },
            _ => stored,
        }),
{
    match stored {
        Theme::System => match env_theme {
            Some(t) => t,
            None => Theme::Light,
        },
        _ => stored,
    }
}

/// The settings value `"auto"` never decides the language: the chain goes
/// on to the catalog, the system and English.
pub proof fn law_auto_falls_through(catalog_locale: Option<Seq<char>>, env_locale: Option<Locale>)
    ensures
        resolved_locale("auto"@, catalog_locale, env_locale) == match catalog_locale {
            Some(c) if locale_of(c) is Some => locale_of(c)->0,
            _ => match env_locale {
                Some(l) => l,
                None => Locale::En,
            },
        },
{
    reveal_strlit("auto");
    reveal_strlit("en");
    reveal_strlit("ja");
    assert("auto"@ != "en"@) by {
        assert("auto"@.len() != "en"@.len());
    }
    assert("auto"@ != "ja"@) by {
        assert("auto"@.len() != "ja"@.len());
    }
}

} // verus!
