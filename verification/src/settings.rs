//! Persistent user settings.
//!
//! [`OrbokSettings`] holds the values that outlive a session. Reading the
//! settings file yields, field by field, what it held ([`StoredSettings`]);
//! every field that was missing or unreadable takes its default, and a file
//! written by an older version keeps its meaning.

use crate::text::{ascii_lower, eq_ignore_ascii_case, owned, text_equal, trim_text, trimmed};
use vstd::prelude::*;
use vstd::string::*;

verus! {

broadcast use vstd::string::group_string_axioms;

/// All persistent user preferences.
#[derive(Debug)]
pub struct OrbokSettings {
    /// The embedding model folder chosen in the setup wizard; `None` until
    /// semantic search is configured.
    pub embedding_model_dir: Option<String>,
    /// The interface language: `"en"`, `"ja"`, or `"auto"`, which follows
    /// the system.
    pub locale: String,
    /// The interface theme; `"system"` follows the system.
    pub theme: String,
    /// The text scale: `"default"`, `"large"` or `"larger"`.
    pub text_scale: String,
    /// Whether non-essential animation is suppressed.
    pub reduced_motion: bool,
    /// Whether folders are prepared in the background.
    pub background_indexing: bool,
    /// Whether embedding waits while the machine runs on battery.
    pub pause_embedding_on_battery: bool,
    /// Whether recent searches are remembered.
    pub remember_recent_searches: bool,
}

/// The view of [`OrbokSettings`].
pub struct SettingsView {
    pub embedding_model_dir: Option<Seq<char>>,
    pub locale: Seq<char>,
    pub theme: Seq<char>,
    pub text_scale: Seq<char>,
    pub reduced_motion: bool,
    pub background_indexing: bool,
    pub pause_embedding_on_battery: bool,
    pub remember_recent_searches: bool,
}

/// The view of an optional text.
pub open spec fn opt_text(value: Option<String>) -> Option<Seq<char>> {
    match value {
        Some(s) => Some(s@),
        None => None,
    }
}

impl View for OrbokSettings {
    type V = SettingsView;

    open spec fn view(&self) -> SettingsView {
        SettingsView {
            embedding_model_dir: opt_text(self.embedding_model_dir),
            locale: self.locale@,
            theme: self.theme@,
            text_scale: self.text_scale@,
            reduced_motion: self.reduced_motion,
            background_indexing: self.background_indexing,
            pause_embedding_on_battery: self.pause_embedding_on_battery,
            remember_recent_searches: self.remember_recent_searches,
        }
    }
}

/// The settings of a new profile. The locale is `"auto"`, so a fresh
/// profile follows the system language.
pub open spec fn default_settings() -> SettingsView {
    SettingsView {
        embedding_model_dir: None,
        locale: "auto"@,
        theme: "system"@,
        text_scale: "default"@,
        reduced_motion: false,
        background_indexing: true,
        pause_embedding_on_battery: true,
        remember_recent_searches: true,
    }
}

impl Default for OrbokSettings {
    fn default() -> (r: Self)
        ensures
            r@ == default_settings(),
    {
        OrbokSettings {
            embedding_model_dir: None,
            locale: owned("auto"),
            theme: owned("system"),
            text_scale: owned("default"),
            reduced_motion: false,
            background_indexing: true,
            pause_embedding_on_battery: true,
            remember_recent_searches: true,
        }
    }
}

impl OrbokSettings {
    /// An independent copy.
    pub fn duplicate(&self) -> (r: OrbokSettings)
        ensures
            r@ == self@,
    {
        OrbokSettings {
            embedding_model_dir: match &self.embedding_model_dir {
                Some(s) => Some(s.clone()),
                None => None,
            },
            locale: self.locale.clone(),
            theme: self.theme.clone(),
            text_scale: self.text_scale.clone(),
            reduced_motion: self.reduced_motion,
            background_indexing: self.background_indexing,
            pause_embedding_on_battery: self.pause_embedding_on_battery,
            remember_recent_searches: self.remember_recent_searches,
        }
    }
}

/// What a settings file held, field by field: `None` where the field was
/// missing or had a value of the wrong type. `pause_on_battery` and
/// `privacy_mode` are fields that older versions wrote.
#[derive(Debug)]
pub struct StoredSettings {
    pub embedding_model_dir: Option<String>,
    pub locale: Option<String>,
    pub theme: Option<String>,
    pub text_scale: Option<String>,
    pub reduced_motion: Option<bool>,
    pub background_indexing: Option<bool>,
    pub pause_embedding_on_battery: Option<bool>,
    pub pause_on_battery: Option<bool>,
    pub privacy_mode: Option<String>,
    pub remember_recent_searches: Option<bool>,
}

/// A value, or the default when there is none.
pub open spec fn or_default<T>(value: Option<T>, default: T) -> T {
    match value {
        Some(v) => v,
        None => default,
    }
}

/// The settings a stored file means: each field its stored value or its
/// default; the battery preference under its old name when the new one is
/// absent; and a stored `"strict"` privacy mode means recent searches are
/// not remembered.
pub open spec fn settings_from_stored(stored: StoredSettings) -> SettingsView {
    let d = default_settings();
    SettingsView {
        embedding_model_dir: opt_text(stored.embedding_model_dir),
        locale: or_default(opt_text(stored.locale), d.locale),
        theme: or_default(opt_text(stored.theme), d.theme),
        text_scale: or_default(opt_text(stored.text_scale), d.text_scale),
        reduced_motion: or_default(stored.reduced_motion, d.reduced_motion),
        background_indexing: or_default(stored.background_indexing, d.background_indexing),
        pause_embedding_on_battery: match stored.pause_embedding_on_battery {
            Some(v) => v,
            None => or_default(stored.pause_on_battery, d.pause_embedding_on_battery),
        },
        remember_recent_searches: if opt_text(stored.privacy_mode) == Some("strict"@) {
            false
        } else {
            or_default(stored.remember_recent_searches, d.remember_recent_searches)
        },
    }
}

fn text_or(value: Option<String>, default: &str) -> (r: String)
    ensures
        r@ == or_default(opt_text(value), default@),
{
    match value {
        Some(s) => s,
        None => owned(default),
    }
}

fn flag_or(value: Option<bool>, default: bool) -> (r: bool)
    ensures
        r == or_default(value, default),
{
    match value {
        Some(v) => v,
        None => default,
    }
}

/// The settings a stored file means (see [`settings_from_stored`]).
pub fn resolve_stored_settings(stored: StoredSettings) -> (r: OrbokSettings)
    ensures
        r@ == settings_from_stored(stored),
{
    let ghost s = stored;
    let strict = match &stored.privacy_mode {
        Some(mode) => crate::text::text_equal(mode.as_str(), "strict"),
        None => false,
    };
    let remember = if strict {
        false
    } else {
        flag_or(stored.remember_recent_searches, true)
    };
    let pause = match stored.pause_embedding_on_battery {
        Some(v) => v,
        None => flag_or(stored.pause_on_battery, true),
    };
    OrbokSettings {
        embedding_model_dir: stored.embedding_model_dir,
        locale: text_or(stored.locale, "auto"),
        theme: text_or(stored.theme, "system"),
        text_scale: text_or(stored.text_scale, "default"),
        reduced_motion: flag_or(stored.reduced_motion, false),
        background_indexing: flag_or(stored.background_indexing, true),
        pause_embedding_on_battery: pause,
        remember_recent_searches: remember,
    }
}

/// How reading the settings file went.
#[derive(Debug)]
pub enum SettingsRead {
    /// The file was read and was a settings object.
    Stored(StoredSettings),
    /// There was no file.
    Missing,
    /// The file was read but is not a settings object.
    Unreadable,
    /// The file could not be read.
    Failed,
}

/// What loading settings gives, and what the caller then does to the file.
#[derive(Debug)]
pub struct SettingsLoad {
    /// The settings to use.
    pub settings: OrbokSettings,
    /// Whether the defaults are to be written as the profile's first file.
    pub write_default: bool,
    /// Whether the unreadable file is to be moved aside, intact, rather than
    /// overwritten.
    pub keep_unreadable: bool,
}

/// Loads settings from how reading the file went: a stored file gives its
/// settings; a missing file gives the defaults, which are then written; an
/// unreadable file gives the defaults and is kept aside; a failed read gives
/// the defaults and writes nothing.
pub fn load_runtime_settings(read: SettingsRead) -> (r: SettingsLoad)
    ensures
        match read {
            SettingsRead::Stored(stored) => r.settings@ == settings_from_stored(stored)
                && !r.write_default && !r.keep_unreadable,
            SettingsRead::Missing => r.settings@ == default_settings() && r.write_default
                && !r.keep_unreadable,
            SettingsRead::Unreadable => r.settings@ == default_settings() && !r.write_default
                && r.keep_unreadable,
            SettingsRead::Failed => r.settings@ == default_settings() && !r.write_default
                && !r.keep_unreadable,
        },
{
    match read {
        SettingsRead::Stored(stored) => SettingsLoad {
            settings: resolve_stored_settings(stored),
            write_default: false,
            keep_unreadable: false,
        },
        SettingsRead::Missing => SettingsLoad {
            settings: OrbokSettings::default(),
            write_default: true,
            keep_unreadable: false,
        },
        SettingsRead::Unreadable => SettingsLoad {
            settings: OrbokSettings::default(),
            write_default: false,
            keep_unreadable: true,
        },
        SettingsRead::Failed => SettingsLoad {
            settings: OrbokSettings::default(),
            write_default: false,
            keep_unreadable: false,
        },
    }
}

/// `settings` with one field replaced: the settings to save when the user
/// changes reduced motion.
pub fn persist_reduced_motion(settings: &OrbokSettings, val: bool) -> (r: OrbokSettings)
    ensures
        r@ == (SettingsView { reduced_motion: val, ..settings@ }),
{
    let mut next = settings.duplicate();
    next.reduced_motion = val;
    next
}

/// The settings to save when the user picks a theme.
pub fn persist_theme(settings: &OrbokSettings, theme: &str) -> (r: OrbokSettings)
    ensures
        r@ == (SettingsView { theme: theme@, ..settings@ }),
{
    let mut next = settings.duplicate();
    next.theme = owned(theme);
    next
}

/// The settings to save when the user picks a text scale.
pub fn persist_text_scale(settings: &OrbokSettings, scale: &str) -> (r: OrbokSettings)
    ensures
        r@ == (SettingsView { text_scale: scale@, ..settings@ }),
{
    let mut next = settings.duplicate();
    next.text_scale = owned(scale);
    next
}

/// The settings to save when the user accepts a model folder.
pub fn persist_model_dir(settings: &OrbokSettings, model_dir: &str) -> (r: OrbokSettings)
    ensures
        r@ == (SettingsView { embedding_model_dir: Some(model_dir@), ..settings@ }),
{
    let mut next = settings.duplicate();
    next.embedding_model_dir = Some(owned(model_dir));
    next
}

/// When the app manages the model, a stored model folder inside the
/// profile's managed store is dropped. `Some` is the settings to save;
/// `None` means nothing changes.
pub fn remove_managed_model_dir_setting(settings: &OrbokSettings, stored_dir_is_managed: bool) -> (r:
    Option<OrbokSettings>)
    ensures
        match r {
            Some(next) => settings@.embedding_model_dir is Some && stored_dir_is_managed && next@
                == (SettingsView { embedding_model_dir: None, ..settings@ }),
            None => !(settings@.embedding_model_dir is Some && stored_dir_is_managed),
        },
{
    if settings.embedding_model_dir.is_some() && stored_dir_is_managed {
        let mut next = settings.duplicate();
        next.embedding_model_dir = None;
        Some(next)
    } else {
        None
    }
}

/// A file with no readable field loads as the defaults.
pub proof fn law_an_empty_file_loads_as_the_defaults(stored: StoredSettings)
    requires
        stored.embedding_model_dir is None,
        stored.locale is None,
        stored.theme is None,
        stored.text_scale is None,
        stored.reduced_motion is None,
        stored.background_indexing is None,
        stored.pause_embedding_on_battery is None,
        stored.pause_on_battery is None,
        stored.privacy_mode is None,
        stored.remember_recent_searches is None,
    ensures
        settings_from_stored(stored) == default_settings(),
{
}

/// A field that was read keeps its value; a field that was not takes its
/// default. One unreadable field costs only itself.
pub proof fn law_each_field_loads_on_its_own(stored: StoredSettings)
    ensures
        ({
            let r = settings_from_stored(stored);
            let d = default_settings();
            &&& r.embedding_model_dir == opt_text(stored.embedding_model_dir)
            &&& r.locale == (match stored.locale {
                Some(v) => v@,
                None => d.locale,
            })
            &&& r.theme == (match stored.theme {
                Some(v) => v@,
                None => d.theme,
            })
            &&& r.text_scale == (match stored.text_scale {
                Some(v) => v@,
                None => d.text_scale,
            })
            &&& r.reduced_motion == (match stored.reduced_motion {
                Some(v) => v,
                None => d.reduced_motion,
            })
            &&& r.background_indexing == (match stored.background_indexing {
                Some(v) => v,
                None => d.background_indexing,
            })
            &&& r.pause_embedding_on_battery == (match (
                stored.pause_embedding_on_battery,
                stored.pause_on_battery,
            ) {
                (Some(v), _) => v,
                (None, Some(v)) => v,
                (None, None) => true,
            })
            &&& r.remember_recent_searches == (if stored.privacy_mode matches Some(m) && m@ == "strict"@ {
                false
            } else {
                match stored.remember_recent_searches {
                    Some(v) => v,
                    None => true,
                }
            })
        }),
{
}

/// A file written before the battery preference was renamed keeps its
/// value under the new name.
pub proof fn law_the_old_battery_name_still_loads(stored: StoredSettings, value: bool)
    requires
        stored.pause_embedding_on_battery is None,
        stored.pause_on_battery == Some(value),
    ensures
        settings_from_stored(stored).pause_embedding_on_battery == value,
{
}

/// A file that still names the strict privacy mode loads with recent
/// searches off, whatever its own toggle says; any other mode changes
/// nothing.
pub proof fn law_strict_privacy_means_no_recent_searches(stored: StoredSettings)
    ensures
        opt_text(stored.privacy_mode) == Some("strict"@) ==> !settings_from_stored(
            stored,
        ).remember_recent_searches,
        opt_text(stored.privacy_mode) != Some("strict"@) ==> settings_from_stored(
            stored,
        ).remember_recent_searches == or_default(stored.remember_recent_searches, true),
{
}

/// What a settings file written from `settings` holds, field by field:
/// every current field, and neither of the names older versions wrote.
pub open spec fn saves_as(settings: SettingsView, stored: StoredSettings) -> bool {
    &&& opt_text(stored.embedding_model_dir) == settings.embedding_model_dir
    &&& opt_text(stored.locale) == Some(settings.locale)
    &&& opt_text(stored.theme) == Some(settings.theme)
    &&& opt_text(stored.text_scale) == Some(settings.text_scale)
    &&& stored.reduced_motion == Some(settings.reduced_motion)
    &&& stored.background_indexing == Some(settings.background_indexing)
    &&& stored.pause_embedding_on_battery == Some(settings.pause_embedding_on_battery)
    &&& stored.pause_on_battery is None
    &&& stored.privacy_mode is None
    &&& stored.remember_recent_searches == Some(settings.remember_recent_searches)
}

/// A saved file loads back as the settings it was written from.
pub proof fn law_a_saved_file_loads_back_unchanged(settings: SettingsView, stored: StoredSettings)
    requires
        saves_as(settings, stored),
    ensures
        settings_from_stored(stored) == settings,
{
}

/// A first start: the defaults that a missing file asks to be written load
/// back as the defaults.
pub proof fn law_the_first_written_file_loads_as_the_defaults(stored: StoredSettings)
    requires
        saves_as(default_settings(), stored),
    ensures
        settings_from_stored(stored) == default_settings(),
{
    law_a_saved_file_loads_back_unchanged(default_settings(), stored);
}

/// Whether the reduced-motion override asks for reduced motion: its value,
/// trimmed, is `1` or `true` in any ASCII case. No value asks for nothing.
pub open spec fn reduced_motion_value(value: Option<Seq<char>>) -> bool {
    match value {
        Some(v) => trimmed(v) == "1"@ || ascii_lower(trimmed(v)) == ascii_lower("true"@),
        None => false,
    }
}

/// The system's reduced-motion preference, as far as it is known here: the
/// `ORBOK_REDUCE_MOTION` override's value (see [`reduced_motion_value`]).
pub fn reduced_motion_requested(value: Option<&str>) -> (r: bool)
    ensures
        r == reduced_motion_value(
            match value {
                Some(v) => Some(v@),
                None => None,
            },
        ),
{
    match value {
        Some(v) => {
            let t = trim_text(v);
            text_equal(t.as_str(), "1") || eq_ignore_ascii_case(t.as_str(), "true")
        },
        None => false,
    }
}

/// The settings after "remember recent searches" is switched.
pub fn persist_remember_recent_searches(settings: &OrbokSettings, on: bool) -> (r: OrbokSettings)
    ensures
        r@ == (SettingsView { remember_recent_searches: on, ..settings@ }),
{
    let mut next = settings.duplicate();
    next.remember_recent_searches = on;
    next
}

/// What a settings file written from `settings` holds, field by field (see
/// [`saves_as`]).
pub fn settings_to_save(settings: &OrbokSettings) -> (r: StoredSettings)
    ensures
        saves_as(settings@, r),
{
    StoredSettings {
        embedding_model_dir: match &settings.embedding_model_dir {
            Some(dir) => Some(owned(dir.as_str())),
            None => None,
        },
        locale: Some(owned(settings.locale.as_str())),
        theme: Some(owned(settings.theme.as_str())),
        text_scale: Some(owned(settings.text_scale.as_str())),
        reduced_motion: Some(settings.reduced_motion),
        background_indexing: Some(settings.background_indexing),
        pause_embedding_on_battery: Some(settings.pause_embedding_on_battery),
        pause_on_battery: None,
        privacy_mode: None,
        remember_recent_searches: Some(settings.remember_recent_searches),
    }
}

/// Switching reduced motion, saving and loading again gives the old
/// settings with only that field changed.
pub proof fn law_a_reduced_motion_change_loads_back(old: SettingsView, val: bool, stored: StoredSettings)
    requires
        saves_as(SettingsView { reduced_motion: val, ..old }, stored),
    ensures
        settings_from_stored(stored) == (SettingsView { reduced_motion: val, ..old }),
{
    law_a_saved_file_loads_back_unchanged(SettingsView { reduced_motion: val, ..old }, stored);
}

/// Choosing a model folder, saving and loading again gives the old settings
/// with only the folder changed.
pub proof fn law_a_model_dir_change_loads_back(old: SettingsView, dir: Seq<char>, stored: StoredSettings)
    requires
        saves_as(SettingsView { embedding_model_dir: Some(dir), ..old }, stored),
    ensures
        settings_from_stored(stored) == (SettingsView { embedding_model_dir: Some(dir), ..old }),
{
    law_a_saved_file_loads_back_unchanged(SettingsView { embedding_model_dir: Some(dir), ..old }, stored);
}

/// Dropping a managed model folder, saving and loading again gives the old
/// settings with no folder and nothing else changed.
pub proof fn law_a_dropped_managed_folder_loads_back(old: SettingsView, stored: StoredSettings)
    requires
        saves_as(SettingsView { embedding_model_dir: None, ..old }, stored),
    ensures
        settings_from_stored(stored) == (SettingsView { embedding_model_dir: None, ..old }),
{
    law_a_saved_file_loads_back_unchanged(SettingsView { embedding_model_dir: None, ..old }, stored);
}

} // verus!
