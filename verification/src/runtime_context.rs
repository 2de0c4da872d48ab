//! Runtime-profile selection and path resolution.
//!
//! One process uses exactly one profile: the standard profile under the
//! platform's data and settings directories (or a directory named by
//! `ORBOK_DATA_DIR`), or a portable profile in `orbok-data/` under the
//! directory the process started in. Resolution is pure: the caller supplies
//! the startup directory, the platform locations, and the override text, and
//! every profile path is derived and frozen here without touching the disk.

use crate::paths::{
    head_len, is_absolute_parts, join_parts, law_normalization_keeps_a_normal_path,
    law_normalized_has_no_dots, law_normalized_stays_absolute,
    lemma_join_wf, no_dots, normalize_absolute, normalized, overlap_parts, paths_overlap,
    component_name, path_components, starts_with_parts, valid_name, wf_parts, PartView, PathPart,
    ProfilePath,
};
use crate::text::owned;
use vstd::prelude::*;
use vstd::string::*;

verus! {

broadcast use vstd::string::group_string_axioms;

/// The directory of a portable profile, under the startup directory.
pub const PORTABLE_DATA_DIR: &'static str = "orbok-data";

/// The catalog database file, in the profile's data directory.
pub const CATALOG_FILE_NAME: &'static str = "catalog.sqlite3";

/// The cache database file, in the profile's data directory.
pub const CACHE_FILE_NAME: &'static str = "cache.sqlite3";

/// The models directory, in the profile's data directory.
pub const MODELS_DIR: &'static str = "models";

/// The settings file, in the profile's settings directory.
pub const SETTINGS_FILE: &'static str = "settings.json";

/// The diagnostics directory, in the profile's data directory.
pub const DIAGNOSTICS_DIR: &'static str = "diagnostics";

/// The temporary directory, in the profile's data directory.
pub const TEMPORARY_DIR: &'static str = "tmp";

/// `std::io::Error`, carried through unchanged.
#[verifier::external_type_specification]
#[verifier::external_body]
pub struct ExIoError(std::io::Error);

/// The single profile selected for one process lifetime.
#[derive(Clone, Copy, Debug, PartialEq, Eq, Structural)]
pub enum RuntimeMode {
    Standard,
    Portable,
}

/// Why no runtime context could be resolved.
#[derive(Clone, Copy, Debug, PartialEq, Eq, Structural)]
pub enum RuntimeContextError {
    PortableOverrideConflict,
    ProfilePathAlias,
    StartupDirectoryNotAbsolute,
    ResolvedPathNotAbsolute,
}

impl RuntimeContextError {
    /// The text shown for this error.
    pub fn message(&self) -> (r: &'static str)
        ensures
            r@ == context_error_text(*self),
    {
        match self {
            RuntimeContextError::PortableOverrideConflict => "portable mode conflicts with the non-empty ORBOK_DATA_DIR override",
            RuntimeContextError::ProfilePathAlias => "portable and standard runtime profile paths overlap",
            RuntimeContextError::StartupDirectoryNotAbsolute => "startup directory must be absolute",
            RuntimeContextError::ResolvedPathNotAbsolute => "resolved runtime path must be absolute",
        }
    }
}

/// The text shown for each context error.
pub open spec fn context_error_text(error: RuntimeContextError) -> Seq<char> {
    match error {
        RuntimeContextError::PortableOverrideConflict => "portable mode conflicts with the non-empty ORBOK_DATA_DIR override"@,
        RuntimeContextError::ProfilePathAlias => "portable and standard runtime profile paths overlap"@,
        RuntimeContextError::StartupDirectoryNotAbsolute => "startup directory must be absolute"@,
        RuntimeContextError::ResolvedPathNotAbsolute => "resolved runtime path must be absolute"@,
    }
}

/// The command and environment inputs that select a profile.
#[derive(Debug)]
pub struct RuntimeSelection {
    mode: RuntimeMode,
    standard_data_override: Option<ProfilePath>,
}

/// The view of a [`RuntimeSelection`].
pub struct SelectionView {
    pub mode: RuntimeMode,
    /// The components of the override directory, as the platform reads it.
    pub standard_data_override: Option<Seq<PartView>>,
}

impl View for RuntimeSelection {
    type V = SelectionView;

    closed spec fn view(&self) -> SelectionView {
        SelectionView {
            mode: self.mode,
            standard_data_override: match self.standard_data_override {
                Some(p) => Some(p@),
                None => None,
            },
        }
    }
}

/// An override that is present and not empty.
pub open spec fn effective_override(value: Option<Seq<char>>) -> Option<Seq<char>> {
    match value {
        Some(s) => if s.len() > 0 {
            Some(s)
        } else {
            None
        },
        None => None,
    }
}

impl RuntimeSelection {
    /// Applies the precedence rule: an absent or empty override is unset, and
    /// a set override conflicts with portable mode. A set override is read
    /// as this platform reads paths.
    pub fn resolve(portable: bool, data_dir_override: Option<String>) -> (r: Result<
        RuntimeSelection,
        RuntimeContextError,
    >)
        ensures
            ({
                let given = match data_dir_override {
                    Some(s) => Some(s@),
                    None => None,
                };
                match r {
                    Err(e) => portable && effective_override(given) is Some && e
                        == RuntimeContextError::PortableOverrideConflict,
                    Ok(s) => !(portable && effective_override(given) is Some) && s@.mode == (if portable {
                        RuntimeMode::Portable
                    } else {
                        RuntimeMode::Standard
                    }) && (s@.standard_data_override is Some <==> effective_override(given) is Some)
                        && (data_dir_override is Some && data_dir_override->0@.len() > 0 ==> exists|
                        separator: char,
                    |
                        s@.standard_data_override == Some(
                            #[trigger] path_components(separator, data_dir_override->0@),
                        ))
                        && (s@.standard_data_override matches Some(o) ==> wf_parts(o)),
                }
            }),
    {
        let ghost given = crate::sources::text_view(data_dir_override);
        let standard_data_override = match data_dir_override {
            Some(value) => if value.as_str().unicode_len() > 0 {
                Some(value)
            } else {
                None
            },
            None => None,
        };
        if portable && standard_data_override.is_some() {
            return Err(RuntimeContextError::PortableOverrideConflict);
        }
        let mode = if portable {
            RuntimeMode::Portable
        } else {
            RuntimeMode::Standard
        };
        let ghost filtered = crate::sources::text_view(standard_data_override);
        assert(filtered == effective_override(given));
        let ghost mut witness: char = '/';
        let standard_data_override = match standard_data_override {
            Some(text) => {
                let path = ProfilePath::from_text(text.as_str());
                proof {
                    witness = choose|separator: char| path@ == path_components(separator, text@);
                }
                assert(filtered == Some(text@));
                Some(path)
            },
            None => None,
        };
        let r = RuntimeSelection { mode, standard_data_override };
        proof {
            if given is Some && given->0.len() > 0 {
                assert(r@.standard_data_override == Some(path_components(witness, given->0)));
            }
        }
        Ok(r)
    }

    pub fn mode(&self) -> (r: RuntimeMode)
        ensures
            r == self@.mode,
    {
        self.mode
    }
}

/// Platform locations captured before the context is resolved.
pub struct PlatformRuntimePaths<'a> {
    /// The standard-mode data location, including the `orbok` component.
    pub standard_data_dir: Option<&'a ProfilePath>,
    /// The standard-mode settings directory, including the app component.
    pub standard_settings_dir: &'a ProfilePath,
    /// Whether this platform's file names fold case (Windows and macOS).
    pub case_insensitive: bool,
    /// Whether an absolute path must begin with a drive or share prefix
    /// (Windows), so that a path starting at a bare root belongs to the
    /// current drive.
    pub absolute_needs_prefix: bool,
}

/// The persistent path classes a profile has.
#[derive(Clone, Copy, Debug, PartialEq, Eq, Structural)]
pub enum RuntimePathKind {
    Catalog,
    Cache,
    Models,
    Settings,
    Recovery,
    Diagnostics,
    Temporary,
}

/// The frozen paths of the one active profile.
#[derive(Debug)]
pub struct RuntimeContext {
    mode: RuntimeMode,
    startup_dir: ProfilePath,
    data_dir: ProfilePath,
    catalog_file: ProfilePath,
    cache_file: ProfilePath,
    models_dir: ProfilePath,
    settings_file: ProfilePath,
    diagnostics_dir: ProfilePath,
    temporary_dir: ProfilePath,
}

/// The view of a [`RuntimeContext`].
pub struct ContextView {
    pub mode: RuntimeMode,
    pub startup_dir: Seq<PartView>,
    pub data_dir: Seq<PartView>,
    pub catalog_file: Seq<PartView>,
    pub cache_file: Seq<PartView>,
    pub models_dir: Seq<PartView>,
    pub settings_file: Seq<PartView>,
    pub diagnostics_dir: Seq<PartView>,
    pub temporary_dir: Seq<PartView>,
}

impl ContextView {
    /// The path of one kind.
    pub open spec fn path_of(self, kind: RuntimePathKind) -> Seq<PartView> {
        match kind {
            RuntimePathKind::Catalog => self.catalog_file,
            RuntimePathKind::Cache => self.cache_file,
            RuntimePathKind::Models => self.models_dir,
            RuntimePathKind::Settings => self.settings_file,
            RuntimePathKind::Recovery => self.data_dir,
            RuntimePathKind::Diagnostics => self.diagnostics_dir,
            RuntimePathKind::Temporary => self.temporary_dir,
        }
    }
}

impl View for RuntimeContext {
    type V = ContextView;

    closed spec fn view(&self) -> ContextView {
        ContextView {
            mode: self.mode,
            startup_dir: self.startup_dir@,
            data_dir: self.data_dir@,
            catalog_file: self.catalog_file@,
            cache_file: self.cache_file@,
            models_dir: self.models_dir@,
            settings_file: self.settings_file@,
            diagnostics_dir: self.diagnostics_dir@,
            temporary_dir: self.temporary_dir@,
        }
    }
}

/// A startup directory is absolute: it starts at a root and, where the
/// platform needs one, after a drive or share prefix.
pub open spec fn startup_is_absolute(startup: Seq<PartView>, absolute_needs_prefix: bool) -> bool {
    &&& is_absolute_parts(startup)
    &&& (absolute_needs_prefix ==> startup[0] is Prefix)
}

/// `path` made absolute against `anchor` and normalized; `None` when the
/// result is not absolute. Joining keeps a path that starts with a prefix
/// and gives a path that starts at a bare root the anchor's prefix, so an
/// absolute path stays as it is, and on Windows a drive-less root path
/// lands on the anchor's drive.
pub open spec fn anchored(anchor: Seq<PartView>, path: Seq<PartView>) -> Option<Seq<PartView>> {
    let joined = join_parts(anchor, path);
    if is_absolute_parts(joined) {
        Some(normalized(joined))
    } else {
        None
    }
}

/// A path with one name added.
pub open spec fn with_name(dir: Seq<PartView>, name: &str) -> Seq<PartView> {
    dir.push(PartView::Normal(name@))
}

/// The context for a data directory and a settings directory.
pub open spec fn context_at(
    mode: RuntimeMode,
    startup: Seq<PartView>,
    data: Seq<PartView>,
    settings_dir: Seq<PartView>,
) -> ContextView {
    ContextView {
        mode,
        startup_dir: startup,
        data_dir: data,
        catalog_file: with_name(data, CATALOG_FILE_NAME),
        cache_file: with_name(data, CACHE_FILE_NAME),
        models_dir: with_name(data, MODELS_DIR),
        settings_file: with_name(settings_dir, SETTINGS_FILE),
        diagnostics_dir: with_name(data, DIAGNOSTICS_DIR),
        temporary_dir: with_name(data, TEMPORARY_DIR),
    }
}

/// What resolving a selection gives: the startup directory must be
/// absolute; the standard data directory (or, when the platform has none,
/// the portable one) and the standard settings directory are anchored at
/// it; a portable profile that overlaps either is refused; a standard
/// profile with an override keeps all of it, settings included, in the
/// override directory.
pub open spec fn resolve_spec(
    selection: SelectionView,
    startup: Seq<PartView>,
    standard_data: Option<Seq<PartView>>,
    standard_settings: Seq<PartView>,
    case_insensitive: bool,
    absolute_needs_prefix: bool,
) -> Result<ContextView, RuntimeContextError> {
    if !startup_is_absolute(startup, absolute_needs_prefix) {
        Err(RuntimeContextError::StartupDirectoryNotAbsolute)
    } else {
        let s = normalized(startup);
        let portable = with_name(s, PORTABLE_DATA_DIR);
        let default_data = match standard_data {
            Some(d) => anchored(s, d),
            None => Some(portable),
        };
        let settings = anchored(s, standard_settings);
        if default_data is None || settings is None {
            Err(RuntimeContextError::ResolvedPathNotAbsolute)
        } else {
            match selection.mode {
                RuntimeMode::Portable => if overlap_parts(portable, default_data->0, case_insensitive)
                    || overlap_parts(portable, settings->0, case_insensitive) {
                    Err(RuntimeContextError::ProfilePathAlias)
                } else {
                    Ok(context_at(RuntimeMode::Portable, s, portable, portable))
                },
                RuntimeMode::Standard => match selection.standard_data_override {
                    Some(o) => match anchored(s, o) {
                        Some(d) => Ok(context_at(RuntimeMode::Standard, s, d, d)),
                        None => Err(RuntimeContextError::ResolvedPathNotAbsolute),
                    },
                    None => Ok(context_at(RuntimeMode::Standard, s, default_data->0, settings->0)),
                },
            }
        }
    }
}

proof fn lemma_literal_names()
    ensures
        valid_name(PORTABLE_DATA_DIR@),
        valid_name(CATALOG_FILE_NAME@),
        valid_name(CACHE_FILE_NAME@),
        valid_name(MODELS_DIR@),
        valid_name(SETTINGS_FILE@),
        valid_name(DIAGNOSTICS_DIR@),
        valid_name(TEMPORARY_DIR@),
{
    reveal_strlit("orbok-data");
    reveal_strlit("catalog.sqlite3");
    reveal_strlit("cache.sqlite3");
    reveal_strlit("models");
    reveal_strlit("settings.json");
    reveal_strlit("diagnostics");
    reveal_strlit("tmp");
    assert(!PORTABLE_DATA_DIR@.contains('/'));
    assert(!CATALOG_FILE_NAME@.contains('/'));
    assert(!CACHE_FILE_NAME@.contains('/'));
    assert(!MODELS_DIR@.contains('/'));
    assert(!SETTINGS_FILE@.contains('/'));
    assert(!DIAGNOSTICS_DIR@.contains('/'));
    assert(!TEMPORARY_DIR@.contains('/'));
    assert(PORTABLE_DATA_DIR@.len() > 2);
    assert(CATALOG_FILE_NAME@.len() > 2);
    assert(CACHE_FILE_NAME@.len() > 2);
    assert(MODELS_DIR@.len() > 2);
    assert(SETTINGS_FILE@.len() > 2);
    assert(DIAGNOSTICS_DIR@.len() > 2);
    assert(TEMPORARY_DIR@.len() > 2);
}

/// `path` made absolute against `anchor` (already normalized) and
/// normalized.
pub fn anchor_and_normalize(anchor: &ProfilePath, path: &ProfilePath) -> (r: Result<
    ProfilePath,
    RuntimeContextError,
>)
    ensures
        match r {
            Ok(p) => anchored(anchor@, path@) == Some(p@),
            Err(e) => anchored(anchor@, path@) is None && e
                == RuntimeContextError::ResolvedPathNotAbsolute,
        },
{
    let joined = anchor.join(path);
    match normalize_absolute(&joined) {
        Some(p) => Ok(p),
        None => Err(RuntimeContextError::ResolvedPathNotAbsolute),
    }
}

fn context_from(mode: RuntimeMode, startup_dir: ProfilePath, data_dir: ProfilePath, settings_dir: &ProfilePath) -> (r: RuntimeContext)
    ensures
        r@ == context_at(mode, startup_dir@, data_dir@, settings_dir@),
{
    proof {
        lemma_literal_names();
    }
    let catalog_file = data_dir.join_name(CATALOG_FILE_NAME);
    let cache_file = data_dir.join_name(CACHE_FILE_NAME);
    let models_dir = data_dir.join_name(MODELS_DIR);
    let settings_file = settings_dir.join_name(SETTINGS_FILE);
    let diagnostics_dir = data_dir.join_name(DIAGNOSTICS_DIR);
    let temporary_dir = data_dir.join_name(TEMPORARY_DIR);
    RuntimeContext {
        mode,
        startup_dir,
        catalog_file,
        cache_file,
        models_dir,
        settings_file,
        diagnostics_dir,
        temporary_dir,
        data_dir,
    }
}

impl RuntimeContext {
    /// Resolves and freezes every profile path without opening or probing
    /// any of them.
    pub fn resolve(
        selection: RuntimeSelection,
        startup_dir: &ProfilePath,
        platform: PlatformRuntimePaths<'_>,
    ) -> (r: Result<RuntimeContext, RuntimeContextError>)
        ensures
            ({
                let standard_data = match platform.standard_data_dir {
                    Some(d) => Some(d@),
                    None => None,
                };
                let expected = resolve_spec(
                    selection@,
                    startup_dir@,
                    standard_data,
                    platform.standard_settings_dir@,
                    platform.case_insensitive,
                    platform.absolute_needs_prefix,
                );
                match r {
                    Ok(c) => expected == Ok::<ContextView, RuntimeContextError>(c@),
                    Err(e) => expected == Err::<ContextView, RuntimeContextError>(e),
                }
            }),
    {
        proof {
            lemma_literal_names();
        }
        if platform.absolute_needs_prefix && !(startup_dir.parts().len() > 0 && matches!(
            startup_dir.parts()[0],
            PathPart::Prefix(_),
        )) {
            return Err(RuntimeContextError::StartupDirectoryNotAbsolute);
        }
        let startup = match normalize_absolute(startup_dir) {
            Some(p) => p,
            None => return Err(RuntimeContextError::StartupDirectoryNotAbsolute),
        };
        let portable_data_dir = startup.join_name(PORTABLE_DATA_DIR);
        let standard_default_data_dir = match platform.standard_data_dir {
            Some(d) => anchor_and_normalize(&startup, d)?,
            None => portable_data_dir.duplicate(),
        };
        let standard_settings_dir = anchor_and_normalize(&startup, platform.standard_settings_dir)?;
        let ci = platform.case_insensitive;
        match selection.mode {
            RuntimeMode::Portable => {
                if paths_overlap(&portable_data_dir, &standard_default_data_dir, ci) || paths_overlap(
                    &portable_data_dir,
                    &standard_settings_dir,
                    ci,
                ) {
                    return Err(RuntimeContextError::ProfilePathAlias);
                }
                let settings_dir = portable_data_dir.duplicate();
                Ok(context_from(RuntimeMode::Portable, startup, portable_data_dir, &settings_dir))
            },
            RuntimeMode::Standard => {
                match &selection.standard_data_override {
                    Some(override_path) => {
                        let data_dir = anchor_and_normalize(&startup, override_path)?;
                        let settings_dir = data_dir.duplicate();
                        Ok(context_from(RuntimeMode::Standard, startup, data_dir, &settings_dir))
                    },
                    None => Ok(
                        context_from(
                            RuntimeMode::Standard,
                            startup,
                            standard_default_data_dir,
                            &standard_settings_dir,
                        ),
                    ),
                }
            },
        }
    }

    pub fn mode(&self) -> (r: RuntimeMode)
        ensures
            r == self@.mode,
    {
        self.mode
    }

    pub fn startup_dir(&self) -> (r: &ProfilePath)
        ensures
            r@ == self@.startup_dir,
    {
        &self.startup_dir
    }

    pub fn data_dir(&self) -> (r: &ProfilePath)
        ensures
            r@ == self@.data_dir,
    {
        &self.data_dir
    }

    pub fn catalog_file(&self) -> (r: &ProfilePath)
        ensures
            r@ == self@.catalog_file,
    {
        &self.catalog_file
    }

    pub fn cache_file(&self) -> (r: &ProfilePath)
        ensures
            r@ == self@.cache_file,
    {
        &self.cache_file
    }

    pub fn models_dir(&self) -> (r: &ProfilePath)
        ensures
            r@ == self@.models_dir,
    {
        &self.models_dir
    }

    pub fn settings_file(&self) -> (r: &ProfilePath)
        ensures
            r@ == self@.settings_file,
    {
        &self.settings_file
    }

    pub fn diagnostics_dir(&self) -> (r: &ProfilePath)
        ensures
            r@ == self@.diagnostics_dir,
    {
        &self.diagnostics_dir
    }

    pub fn temporary_dir(&self) -> (r: &ProfilePath)
        ensures
            r@ == self@.temporary_dir,
    {
        &self.temporary_dir
    }

    /// The path of one kind; recovery works in the data directory itself.
    pub fn path(&self, kind: RuntimePathKind) -> (r: &ProfilePath)
        ensures
            r@ == self@.path_of(kind),
    {
        match kind {
            RuntimePathKind::Catalog => self.catalog_file(),
            RuntimePathKind::Cache => self.cache_file(),
            RuntimePathKind::Models => self.models_dir(),
            RuntimePathKind::Settings => self.settings_file(),
            RuntimePathKind::Recovery => self.data_dir(),
            RuntimePathKind::Diagnostics => self.diagnostics_dir(),
            RuntimePathKind::Temporary => self.temporary_dir(),
        }
    }
}

/// A hook called immediately before a profile path is opened or probed; it
/// may observe the access or deny it.
///
/// A probe may declare accesses it always permits (`permits`), which it
/// must let through, and accesses it always denies (`denies`), which it must
/// refuse. By default it declares neither.
pub trait RuntimePathProbe {
    /// Accesses this probe always lets through.
    open spec fn permits(&self, kind: RuntimePathKind, path: Seq<PartView>) -> bool {
        false
    }

    /// Accesses this probe always refuses.
    open spec fn denies(&self, kind: RuntimePathKind, path: Seq<PartView>) -> bool {
        false
    }

    fn before_access(&self, kind: RuntimePathKind, path: &ProfilePath) -> (r: std::io::Result<()>)
        ensures
            self.permits(kind, path@) ==> r is Ok,
            self.denies(kind, path@) ==> r is Err,
    ;
}

/// The production probe: it permits every active path.
#[derive(Clone, Copy, Debug, Default)]
pub struct AllowRuntimePathProbe;

impl RuntimePathProbe for AllowRuntimePathProbe {
    open spec fn permits(&self, kind: RuntimePathKind, path: Seq<PartView>) -> bool {
        true
    }

    fn before_access(&self, kind: RuntimePathKind, path: &ProfilePath) -> (r: std::io::Result<()>)
        ensures
            r is Ok,
    {
        Ok(())
    }
}

/// Why access to a profile path was refused.
#[derive(Debug)]
pub enum RuntimeAccessError {
    /// The requested path is not the active profile's path of that kind.
    InactiveProfilePath(RuntimePathKind),
    /// The probe denied the access.
    Probe(std::io::Error),
}

/// Calls `<std::io::Error as Display>::fmt` through `format!`. Nothing is
/// claimed of the text.
#[verifier::external_body]
fn io_error_text(error: &std::io::Error) -> String {
    format!("{error}")
}

/// The name of each path kind, as `Debug` prints it.
pub open spec fn kind_name_text(kind: RuntimePathKind) -> Seq<char> {
    match kind {
        RuntimePathKind::Catalog => "Catalog"@,
        RuntimePathKind::Cache => "Cache"@,
        RuntimePathKind::Models => "Models"@,
        RuntimePathKind::Settings => "Settings"@,
        RuntimePathKind::Recovery => "Recovery"@,
        RuntimePathKind::Diagnostics => "Diagnostics"@,
        RuntimePathKind::Temporary => "Temporary"@,
    }
}

/// The name of a path kind, as `Debug` prints it.
pub fn kind_name(kind: RuntimePathKind) -> (r: &'static str)
    ensures
        r@ == kind_name_text(kind),
{
    match kind {
        RuntimePathKind::Catalog => "Catalog",
        RuntimePathKind::Cache => "Cache",
        RuntimePathKind::Models => "Models",
        RuntimePathKind::Settings => "Settings",
        RuntimePathKind::Recovery => "Recovery",
        RuntimePathKind::Diagnostics => "Diagnostics",
        RuntimePathKind::Temporary => "Temporary",
    }
}

impl RuntimeAccessError {
    /// The text shown for this error. It never holds the refused path: a
    /// refused inactive path is named by its kind alone, and a probe's
    /// refusal by the probe's own error text.
    pub fn message(&self) -> (r: String)
        ensures
            match self {
                RuntimeAccessError::InactiveProfilePath(kind) => r@
                    == "inactive runtime profile access denied for "@ + kind_name_text(*kind),
                RuntimeAccessError::Probe(_) => {
                    let head = "runtime path access denied: "@;
                    head.len() <= r@.len() && r@.subrange(0, head.len() as int) == head
                },
            },
    {
        match self {
            RuntimeAccessError::InactiveProfilePath(kind) => {
                let mut text = owned("inactive runtime profile access denied for ");
                crate::text::append_text(&mut text, kind_name(*kind));
                text
            },
            RuntimeAccessError::Probe(error) => {
                let mut text = owned("runtime path access denied: ");
                let detail = io_error_text(error);
                crate::text::append_text(&mut text, detail.as_str());
                text
            },
        }
    }
}

/// Binds access authorization to exactly one runtime context.
pub struct RuntimeAccess<'a, P> {
    context: &'a RuntimeContext,
    probe: &'a P,
}

impl<'a, P: RuntimePathProbe> RuntimeAccess<'a, P> {
    pub fn new(context: &'a RuntimeContext, probe: &'a P) -> (r: Self)
        ensures
            r.context() == context,
            r.probe() == probe,
    {
        RuntimeAccess { context, probe }
    }

    pub closed spec fn context(&self) -> &'a RuntimeContext {
        self.context
    }

    pub closed spec fn probe(&self) -> &'a P {
        self.probe
    }

    /// The active path of one kind, once the probe has allowed it.
    pub fn active_path(&self, kind: RuntimePathKind) -> (r: std::io::Result<&'a ProfilePath>)
        ensures
            r is Ok ==> r->Ok_0@ == self.context()@.path_of(kind),
            self.probe().permits(kind, self.context()@.path_of(kind)) ==> r is Ok,
            self.probe().denies(kind, self.context()@.path_of(kind)) ==> r is Err,
    {
        let path = self.context.path(kind);
        match self.probe.before_access(kind, path) {
            Ok(()) => Ok(path),
            Err(e) => Err(e),
        }
    }

    /// Refuses a caller-supplied path unless it is the active path of that
    /// kind, without probing a refused one.
    pub fn authorize_path(&self, kind: RuntimePathKind, requested: &ProfilePath) -> (r: Result<
        &'a ProfilePath,
        RuntimeAccessError,
    >)
        ensures
            requested@ != self.context()@.path_of(kind) ==> (r matches Err(
                RuntimeAccessError::InactiveProfilePath(k),
            ) && k == kind),
            requested@ == self.context()@.path_of(kind) ==> match r {
                Ok(p) => p@ == requested@,
                Err(e) => e is Probe,
            },
            requested@ == self.context()@.path_of(kind) && self.probe().permits(kind, requested@)
                ==> r is Ok,
            requested@ == self.context()@.path_of(kind) && self.probe().denies(kind, requested@)
                ==> r matches Err(RuntimeAccessError::Probe(_)),
    {
        let active = self.context.path(kind);
        if !requested.equals(active) {
            return Err(RuntimeAccessError::InactiveProfilePath(kind));
        }
        match self.probe.before_access(kind, active) {
            Ok(()) => Ok(active),
            Err(e) => Err(RuntimeAccessError::Probe(e)),
        }
    }
}

/// Every file of a profile except its settings lives directly in its data
/// directory, and recovery works in the data directory itself.
pub proof fn law_profile_files_live_in_the_data_dir(
    selection: SelectionView,
    startup: Seq<PartView>,
    standard_data: Option<Seq<PartView>>,
    standard_settings: Seq<PartView>,
    case_insensitive: bool,
    absolute_needs_prefix: bool,
)
    ensures
        resolve_spec(
            selection,
            startup,
            standard_data,
            standard_settings,
            case_insensitive,
            absolute_needs_prefix,
        ) matches Ok(c)
            ==> {
            &&& c.catalog_file == with_name(c.data_dir, CATALOG_FILE_NAME)
            &&& c.cache_file == with_name(c.data_dir, CACHE_FILE_NAME)
            &&& c.models_dir == with_name(c.data_dir, MODELS_DIR)
            &&& c.diagnostics_dir == with_name(c.data_dir, DIAGNOSTICS_DIR)
            &&& c.temporary_dir == with_name(c.data_dir, TEMPORARY_DIR)
            &&& c.path_of(RuntimePathKind::Recovery) == c.data_dir
            &&& starts_with_parts(c.catalog_file, c.data_dir, false)
            &&& starts_with_parts(c.cache_file, c.data_dir, false)
            &&& starts_with_parts(c.models_dir, c.data_dir, false)
            &&& starts_with_parts(c.diagnostics_dir, c.data_dir, false)
            &&& starts_with_parts(c.temporary_dir, c.data_dir, false)
        },
{
}

/// A portable profile is `orbok-data` under the startup directory, keeps its
/// settings there too, and is apart from both standard locations.
pub proof fn law_portable_profile_is_apart_from_the_standard_one(
    selection: SelectionView,
    startup: Seq<PartView>,
    standard_data: Option<Seq<PartView>>,
    standard_settings: Seq<PartView>,
    case_insensitive: bool,
    absolute_needs_prefix: bool,
)
    requires
        selection.mode == RuntimeMode::Portable,
    ensures
        resolve_spec(
            selection,
            startup,
            standard_data,
            standard_settings,
            case_insensitive,
            absolute_needs_prefix,
        ) matches Ok(c)
            ==> {
            &&& c.mode == RuntimeMode::Portable
            &&& c.data_dir == with_name(normalized(startup), PORTABLE_DATA_DIR)
            &&& c.settings_file == with_name(c.data_dir, SETTINGS_FILE)
            &&& starts_with_parts(c.data_dir, c.startup_dir, false)
            &&& !overlap_parts(c.data_dir, anchored(c.startup_dir, standard_settings)->0, case_insensitive)
            &&& standard_data matches Some(d) ==> !overlap_parts(
                c.data_dir,
                anchored(c.startup_dir, d)->0,
                case_insensitive,
            )
        },
{
}

/// A portable profile is refused only on an alias: when the startup
/// directory is absolute, both standard locations anchor to absolute paths,
/// and `orbok-data` under the startup directory overlaps neither, the
/// portable profile resolves there, settings and catalog included.
pub proof fn law_portable_is_refused_only_on_an_alias(
    selection: SelectionView,
    startup: Seq<PartView>,
    standard_data: Seq<PartView>,
    standard_settings: Seq<PartView>,
    case_insensitive: bool,
    absolute_needs_prefix: bool,
)
    requires
        selection.mode == RuntimeMode::Portable,
        startup_is_absolute(startup, absolute_needs_prefix),
        anchored(normalized(startup), standard_data) is Some,
        anchored(normalized(startup), standard_settings) is Some,
        !overlap_parts(
            with_name(normalized(startup), PORTABLE_DATA_DIR),
            anchored(normalized(startup), standard_data)->0,
            case_insensitive,
        ),
        !overlap_parts(
            with_name(normalized(startup), PORTABLE_DATA_DIR),
            anchored(normalized(startup), standard_settings)->0,
            case_insensitive,
        ),
    ensures
        resolve_spec(
            selection,
            startup,
            Some(standard_data),
            standard_settings,
            case_insensitive,
            absolute_needs_prefix,
        ) matches Ok(c) && c.mode == RuntimeMode::Portable && c.startup_dir == normalized(startup)
            && c.data_dir == with_name(normalized(startup), PORTABLE_DATA_DIR) && c.settings_file
            == with_name(c.data_dir, SETTINGS_FILE) && c.catalog_file == with_name(
            c.data_dir,
            CATALOG_FILE_NAME,
        ),
{
}

/// A standard profile with an override keeps the whole profile, settings
/// included, in the override directory, anchored at the startup directory;
/// without one it uses the platform's data and settings locations.
pub proof fn law_standard_profile_follows_the_override(
    selection: SelectionView,
    startup: Seq<PartView>,
    standard_data: Option<Seq<PartView>>,
    standard_settings: Seq<PartView>,
    case_insensitive: bool,
    absolute_needs_prefix: bool,
)
    requires
        selection.mode == RuntimeMode::Standard,
    ensures
        resolve_spec(
            selection,
            startup,
            standard_data,
            standard_settings,
            case_insensitive,
            absolute_needs_prefix,
        ) matches Ok(c)
            ==> {
            &&& c.mode == RuntimeMode::Standard
            &&& match selection.standard_data_override {
                Some(o) => anchored(c.startup_dir, o) == Some(c.data_dir)
                    && c.settings_file == with_name(c.data_dir, SETTINGS_FILE),
                None => c.settings_file == with_name(
                    anchored(c.startup_dir, standard_settings)->0,
                    SETTINGS_FILE,
                ) && match standard_data {
                    Some(d) => anchored(c.startup_dir, d) == Some(c.data_dir),
                    None => c.data_dir == with_name(c.startup_dir, PORTABLE_DATA_DIR),
                },
            }
        },
{
}

proof fn lemma_anchored_is_normal(anchor: Seq<PartView>, path: Seq<PartView>)
    requires
        wf_parts(anchor),
        wf_parts(path),
        anchored(anchor, path) is Some,
    ensures
        is_absolute_parts(anchored(anchor, path)->0),
        normalized(anchored(anchor, path)->0) == anchored(anchor, path)->0,
        no_dots(anchored(anchor, path)->0),
{
    let joined = join_parts(anchor, path);
    lemma_join_wf(anchor, path);
    law_normalized_stays_absolute(joined);
    law_normalized_has_no_dots(joined);
    law_normalization_keeps_a_normal_path(normalized(joined));
}

proof fn lemma_named_is_normal(dir: Seq<PartView>, name: &str)
    requires
        is_absolute_parts(dir),
        no_dots(dir),
        valid_name(name@),
    ensures
        is_absolute_parts(with_name(dir, name)),
        no_dots(with_name(dir, name)),
        normalized(with_name(dir, name)) == with_name(dir, name),
{
    let d = with_name(dir, name);
    assert(d[0] == dir[0]);
    if dir.len() > 1 {
        assert(d[1] == dir[1]);
    }
    assert forall|i: int| 0 <= i < d.len() implies !(#[trigger] d[i] is CurDir) && !(
    d[i] is ParentDir) by {
        if i < dir.len() {
            assert(d[i] == dir[i]);
        }
    }
    law_normalization_keeps_a_normal_path(d);
}

/// Every resolved profile path is absolute and already normalized: no `.`,
/// no `..`, nothing left to resolve.
pub proof fn law_resolved_paths_are_absolute_and_normal(
    selection: SelectionView,
    startup: Seq<PartView>,
    standard_data: Option<Seq<PartView>>,
    standard_settings: Seq<PartView>,
    case_insensitive: bool,
    absolute_needs_prefix: bool,
)
    requires
        wf_parts(startup),
        standard_data matches Some(d) ==> wf_parts(d),
        wf_parts(standard_settings),
        selection.standard_data_override matches Some(o) ==> wf_parts(o),
    ensures
        resolve_spec(
            selection,
            startup,
            standard_data,
            standard_settings,
            case_insensitive,
            absolute_needs_prefix,
        ) matches Ok(c)
            ==> {
            &&& is_absolute_parts(c.data_dir) && normalized(c.data_dir) == c.data_dir
            &&& is_absolute_parts(c.settings_file) && normalized(c.settings_file) == c.settings_file
            &&& is_absolute_parts(c.catalog_file) && normalized(c.catalog_file) == c.catalog_file
        },
{
    lemma_literal_names();
    if is_absolute_parts(startup) {
        let s = normalized(startup);
        law_normalized_stays_absolute(startup);
        law_normalized_has_no_dots(startup);
        law_normalization_keeps_a_normal_path(s);
        lemma_normalized_wf(startup);
        lemma_named_is_normal(s, PORTABLE_DATA_DIR);
        let portable = with_name(s, PORTABLE_DATA_DIR);
        if anchored(s, standard_settings) is Some {
            lemma_anchored_is_normal(s, standard_settings);
            lemma_named_is_normal(anchored(s, standard_settings)->0, SETTINGS_FILE);
        }
        match standard_data {
            Some(d) => {
                if anchored(s, d) is Some {
                    lemma_anchored_is_normal(s, d);
                    lemma_named_is_normal(anchored(s, d)->0, CATALOG_FILE_NAME);
                }
            },
            None => {},
        }
        lemma_named_is_normal(portable, SETTINGS_FILE);
        lemma_named_is_normal(portable, CATALOG_FILE_NAME);
        match selection.standard_data_override {
            Some(o) => {
                if anchored(s, o) is Some {
                    lemma_anchored_is_normal(s, o);
                    lemma_named_is_normal(anchored(s, o)->0, CATALOG_FILE_NAME);
                    lemma_named_is_normal(anchored(s, o)->0, SETTINGS_FILE);
                }
            },
            None => {},
        }
    }
}

proof fn lemma_normalized_wf(parts: Seq<PartView>)
    requires
        wf_parts(parts),
    ensures
        wf_parts(normalized(parts)),
    decreases parts.len(),
{
    if parts.len() > 0 {
        let init = parts.drop_last();
        assert(wf_parts(init)) by {
            assert forall|i: int| 0 <= i < init.len() implies match #[trigger] init[i] {
                PartView::Prefix(s) => i == 0 && s.len() > 0,
                PartView::RootDir => i == 0 || (i == 1 && init[0] is Prefix),
                PartView::CurDir => true,
                PartView::ParentDir => true,
                PartView::Normal(s) => component_name(s),
            } by {
                assert(init[i] == parts[i]);
                if i == 1 {
                    assert(init[0] == parts[0]);
                }
            }
        }
        lemma_normalized_wf(init);
        let acc = normalized(init);
        let last = parts.last();
        let r = normalized(parts);
        crate::paths::lemma_normalized_len(init);
        assert forall|i: int| 0 <= i < r.len() implies match #[trigger] r[i] {
            PartView::Prefix(s) => i == 0 && s.len() > 0,
            PartView::RootDir => i == 0 || (i == 1 && r[0] is Prefix),
            PartView::CurDir => true,
            PartView::ParentDir => true,
            PartView::Normal(s) => component_name(s),
        } by {
            if i < acc.len() {
                assert(r[i] == acc[i]);
                if i == 1 {
                    assert(r[0] == acc[0]);
                }
            } else {
                assert(r[i] == last);
                assert(last == parts[parts.len() - 1]);
                if last is RootDir && i == 1 {
                    assert(parts.len() - 1 == 0 || (parts.len() - 1 == 1 && parts[0] is Prefix));
                    if parts.len() - 1 == 1 {
                        crate::paths::lemma_normalized_head(parts, 1);
                        assert(init =~= parts.subrange(0, 1));
                        assert(r[0] == parts[0]);
                    }
                }
                if last is Prefix {
                    assert(parts.len() - 1 == 0);
                }
            }
        }
    }
}

} // verus!
