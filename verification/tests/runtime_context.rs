use orbok::paths::{paths_overlap, paths_overlap_with_case, path_is_within, PathPart, ProfilePath};
use orbok::runtime_context::{
    PlatformRuntimePaths, RuntimeAccess, RuntimeAccessError, RuntimeContext, RuntimeContextError,
    RuntimeMode, RuntimePathKind, RuntimePathProbe, RuntimeSelection, CACHE_FILE_NAME,
    CATALOG_FILE_NAME,
};
use std::io;
use std::sync::Mutex;

fn absolute(parts: &[&str]) -> ProfilePath {
    let mut path = ProfilePath::parse("/");
    for part in parts {
        path = path.join_name(part);
    }
    path
}

fn platform_paths<'a>(data: &'a ProfilePath, settings: &'a ProfilePath) -> PlatformRuntimePaths<'a> {
    PlatformRuntimePaths {
        standard_data_dir: Some(data),
        standard_settings_dir: settings,
        case_insensitive: false,
        absolute_needs_prefix: false,
    }
}

#[test]
fn empty_override_is_unset_and_standard_paths_are_preserved() {
    let startup = absolute(&["launch"]);
    let standard_data = absolute(&["local-data", "orbok"]);
    let standard_settings = absolute(&["config", "orbok"]);

    for override_value in [None, Some(String::new())] {
        let selection = RuntimeSelection::resolve(false, override_value).unwrap();
        let context = RuntimeContext::resolve(
            selection,
            &startup,
            platform_paths(&standard_data, &standard_settings),
        )
        .unwrap();

        assert_eq!(context.mode(), RuntimeMode::Standard);
        assert_eq!(context.data_dir(), &standard_data);
        assert_eq!(
            context.catalog_file(),
            &standard_data.join_name(CATALOG_FILE_NAME)
        );
        assert_eq!(
            context.cache_file(),
            &standard_data.join_name(CACHE_FILE_NAME)
        );
        assert_eq!(context.models_dir(), &standard_data.join_name("models"));
        assert_eq!(
            context.settings_file(),
            &standard_settings.join_name("settings.json")
        );
    }
}

#[test]
fn standard_override_is_anchored_once_and_normalized() {
    let startup = absolute(&["launch", "directory"]);
    let standard_data = absolute(&["local-data", "orbok"]);
    let standard_settings = absolute(&["config", "orbok"]);
    let selection =
        RuntimeSelection::resolve(false, Some("../override/./profile".to_string())).unwrap();

    let context = RuntimeContext::resolve(
        selection,
        &startup,
        platform_paths(&standard_data, &standard_settings),
    )
    .unwrap();

    assert_eq!(
        context.data_dir(),
        &absolute(&["launch", "override", "profile"])
    );
    assert_eq!(context.startup_dir(), &startup);
}

#[test]
fn standard_override_relocates_settings_too() {
    let startup = absolute(&["root", "startup"]);
    let standard_data = absolute(&["root", "platform-data"]);
    let standard_settings = absolute(&["root", "platform-settings"]);
    let selection =
        RuntimeSelection::resolve(false, Some("/root/override-profile".to_string())).unwrap();
    let context = RuntimeContext::resolve(
        selection,
        &startup,
        platform_paths(&standard_data, &standard_settings),
    )
    .unwrap();
    let profile = absolute(&["root", "override-profile"]);
    assert_eq!(context.data_dir(), &profile);
    assert_eq!(context.settings_file(), &profile.join_name("settings.json"));
    assert!(!path_is_within(context.settings_file(), &standard_settings, false));
}

#[test]
fn missing_platform_data_root_preserves_the_anchored_standard_fallback() {
    let startup = absolute(&["launch", "directory"]);
    let standard_settings = absolute(&["config", "orbok"]);
    let selection = RuntimeSelection::resolve(false, None).unwrap();

    let context = RuntimeContext::resolve(
        selection,
        &startup,
        PlatformRuntimePaths {
            standard_data_dir: None,
            standard_settings_dir: &standard_settings,
            case_insensitive: false,
            absolute_needs_prefix: false,
        },
    )
    .unwrap();

    assert_eq!(context.mode(), RuntimeMode::Standard);
    assert_eq!(context.data_dir(), &startup.join_name("orbok-data"));
}

#[test]
fn portable_mode_fails_closed_when_it_would_alias_the_standard_fallback() {
    let startup = absolute(&["launch", "directory"]);
    let standard_settings = absolute(&["config", "orbok"]);
    let selection = RuntimeSelection::resolve(true, None).unwrap();

    let error = RuntimeContext::resolve(
        selection,
        &startup,
        PlatformRuntimePaths {
            standard_data_dir: None,
            standard_settings_dir: &standard_settings,
            case_insensitive: false,
            absolute_needs_prefix: false,
        },
    )
    .unwrap_err();

    assert_eq!(error, RuntimeContextError::ProfilePathAlias);
}

#[test]
fn portable_mode_fails_closed_when_a_platform_root_aliases_its_profile() {
    let startup = absolute(&["launch", "directory"]);
    let standard_data = startup.join_name("orbok-data");
    let standard_settings = absolute(&["config", "orbok"]);
    let selection = RuntimeSelection::resolve(true, None).unwrap();

    let error = RuntimeContext::resolve(
        selection,
        &startup,
        platform_paths(&standard_data, &standard_settings),
    )
    .unwrap_err();

    assert_eq!(error, RuntimeContextError::ProfilePathAlias);
}

#[test]
fn portable_mode_fails_closed_when_standard_settings_overlap_its_profile() {
    let startup = absolute(&["launch", "directory"]);
    let standard_data = absolute(&["standard", "data"]);
    let standard_settings = startup.join_name("orbok-data").join_name("settings");
    let selection = RuntimeSelection::resolve(true, None).unwrap();

    let error = RuntimeContext::resolve(
        selection,
        &startup,
        platform_paths(&standard_data, &standard_settings),
    )
    .unwrap_err();

    assert_eq!(error, RuntimeContextError::ProfilePathAlias);
}

#[test]
fn case_insensitive_comparison_detects_exact_and_containment_aliases() {
    let exact_left = absolute(&["Launch", "orbok-data"]);
    let exact_right = absolute(&["launch", "ORBOK-DATA"]);
    let descendant = exact_right.join_name("settings");

    assert!(paths_overlap_with_case(&exact_left, &exact_right, true));
    assert!(paths_overlap_with_case(&exact_left, &descendant, true));
    assert!(paths_overlap_with_case(&descendant, &exact_left, true));
}

fn windows_path(prefix: &str, names: &[&str]) -> ProfilePath {
    let mut parts = vec![PathPart::Prefix(prefix.to_string()), PathPart::RootDir];
    parts.extend(names.iter().map(|name| PathPart::Normal(name.to_string())));
    ProfilePath::from_parts(parts).unwrap()
}

/// `C:\Launch\orbok-data` against `c:\launch\ORBOK-DATA` and `c:\LAUNCH`,
/// with Windows' rule that names fold case.
#[test]
fn windows_target_detects_drive_and_component_case_aliases() {
    let portable = windows_path("C:", &["Launch", "orbok-data"]);
    let standard_exact = windows_path("c:", &["launch", "ORBOK-DATA"]);
    let standard_parent = windows_path("c:", &["LAUNCH"]);

    assert!(paths_overlap(&portable, &standard_exact, true));
    assert!(paths_overlap(&portable, &standard_parent, true));
}

/// macOS folds case too.
#[test]
fn macos_target_conservatively_detects_component_case_aliases() {
    let portable = ProfilePath::parse("/Users/Example/Launch/orbok-data");
    let standard = ProfilePath::parse("/users/example/launch/ORBOK-DATA/settings");

    assert!(paths_overlap(&portable, &standard, true));
}

#[test]
fn portable_mode_uses_only_the_frozen_startup_anchor() {
    let startup = absolute(&["launch", "directory"]);
    let standard_data = absolute(&["inactive", "data"]);
    let standard_settings = absolute(&["inactive", "settings"]);

    for override_value in [None, Some(String::new())] {
        let selection = RuntimeSelection::resolve(true, override_value).unwrap();
        let context = RuntimeContext::resolve(
            selection,
            &startup,
            platform_paths(&standard_data, &standard_settings),
        )
        .unwrap();

        let portable = startup.join_name("orbok-data");
        assert_eq!(context.mode(), RuntimeMode::Portable);
        assert_eq!(context.data_dir(), &portable);
        assert_eq!(context.settings_file(), &portable.join_name("settings.json"));
        assert!(!path_is_within(context.catalog_file(), &standard_data, false));
        assert!(!path_is_within(context.settings_file(), &standard_settings, false));
    }
}

#[test]
fn portable_and_nonempty_override_conflict_before_context_resolution() {
    let error =
        RuntimeSelection::resolve(true, Some("standard-profile".to_string())).unwrap_err();
    assert!(matches!(
        error,
        RuntimeContextError::PortableOverrideConflict
    ));
}

#[test]
fn relative_startup_directory_fails_closed() {
    let standard_data = absolute(&["local-data", "orbok"]);
    let standard_settings = absolute(&["config", "orbok"]);
    let selection = RuntimeSelection::resolve(true, None).unwrap();

    let error = RuntimeContext::resolve(
        selection,
        &ProfilePath::parse("relative-startup"),
        platform_paths(&standard_data, &standard_settings),
    )
    .unwrap_err();

    assert!(matches!(
        error,
        RuntimeContextError::StartupDirectoryNotAbsolute
    ));
}

#[test]
fn constructed_context_owns_the_frozen_startup_anchor() {
    let original_startup = absolute(&["first"]);
    let mut caller_startup = original_startup.duplicate();
    let standard_data = absolute(&["local-data", "orbok"]);
    let standard_settings = absolute(&["config", "orbok"]);

    let context = RuntimeContext::resolve(
        RuntimeSelection::resolve(true, None).unwrap(),
        &caller_startup,
        platform_paths(&standard_data, &standard_settings),
    )
    .unwrap();
    caller_startup = absolute(&["second"]);

    assert_eq!(context.data_dir(), &original_startup.join_name("orbok-data"));
    assert_eq!(context.startup_dir(), &original_startup);
    assert_ne!(context.startup_dir(), &caller_startup);
}

#[derive(Default)]
struct RecordingProbe {
    accesses: Mutex<Vec<(RuntimePathKind, ProfilePath)>>,
}

impl RuntimePathProbe for RecordingProbe {
    fn before_access(&self, kind: RuntimePathKind, path: &ProfilePath) -> io::Result<()> {
        self.accesses.lock().unwrap().push((kind, path.duplicate()));
        Ok(())
    }
}

#[test]
fn access_seam_reports_each_active_profile_path() {
    let startup = absolute(&["launch"]);
    let inactive_data = absolute(&["inactive", "data"]);
    let inactive_settings = absolute(&["inactive", "settings"]);
    let context = RuntimeContext::resolve(
        RuntimeSelection::resolve(true, None).unwrap(),
        &startup,
        platform_paths(&inactive_data, &inactive_settings),
    )
    .unwrap();
    let probe = RecordingProbe::default();
    let access = RuntimeAccess::new(&context, &probe);
    let kinds = [
        RuntimePathKind::Catalog,
        RuntimePathKind::Cache,
        RuntimePathKind::Models,
        RuntimePathKind::Settings,
        RuntimePathKind::Recovery,
        RuntimePathKind::Diagnostics,
        RuntimePathKind::Temporary,
    ];

    for kind in kinds {
        assert_eq!(access.active_path(kind).unwrap(), context.path(kind));
    }

    let recorded = probe.accesses.lock().unwrap();
    assert_eq!(recorded.len(), kinds.len());
    assert!(recorded
        .iter()
        .all(|(_, path)| !path_is_within(path, &inactive_data, false)));
    assert!(recorded
        .iter()
        .all(|(_, path)| !path_is_within(path, &inactive_settings, false)));
}

#[test]
fn access_seam_rejects_inactive_profile_path_without_probing_it() {
    let startup = absolute(&["launch"]);
    let inactive_data = absolute(&["inactive", "data"]);
    let inactive_settings = absolute(&["inactive", "settings"]);
    let context = RuntimeContext::resolve(
        RuntimeSelection::resolve(true, None).unwrap(),
        &startup,
        platform_paths(&inactive_data, &inactive_settings),
    )
    .unwrap();
    let probe = RecordingProbe::default();
    let access = RuntimeAccess::new(&context, &probe);

    let error = access
        .authorize_path(
            RuntimePathKind::Catalog,
            &inactive_data.join_name("orbok.sqlite3"),
        )
        .unwrap_err();

    assert!(matches!(
        error,
        RuntimeAccessError::InactiveProfilePath(RuntimePathKind::Catalog)
    ));
    assert!(probe.accesses.lock().unwrap().is_empty());
}

#[test]
fn access_probe_can_fail_closed_without_exposing_a_path_in_the_error() {
    struct Deny;

    impl RuntimePathProbe for Deny {
        fn before_access(&self, _kind: RuntimePathKind, _path: &ProfilePath) -> io::Result<()> {
            Err(io::Error::new(io::ErrorKind::PermissionDenied, "denied"))
        }
    }

    let startup = absolute(&["launch"]);
    let standard_data = absolute(&["standard", "data"]);
    let standard_settings = absolute(&["standard", "settings"]);
    let context = RuntimeContext::resolve(
        RuntimeSelection::resolve(false, None).unwrap(),
        &startup,
        platform_paths(&standard_data, &standard_settings),
    )
    .unwrap();

    let error = RuntimeAccess::new(&context, &Deny)
        .authorize_path(RuntimePathKind::Settings, context.settings_file())
        .unwrap_err();

    assert!(matches!(error, RuntimeAccessError::Probe(_)));
    assert!(!error.message().contains("standard/settings"));
    assert_eq!(error.message(), "runtime path access denied: denied");
}

fn on_drive(prefix: &str, names: &[&str]) -> ProfilePath {
    let mut parts = Vec::new();
    if !prefix.is_empty() {
        parts.push(PathPart::Prefix(prefix.to_string()));
    }
    parts.push(PathPart::RootDir);
    for name in names {
        parts.push(PathPart::Normal(name.to_string()));
    }
    ProfilePath::from_parts(parts).expect("a well-formed component list")
}

fn drive_platform<'a>(data: &'a ProfilePath, settings: &'a ProfilePath) -> PlatformRuntimePaths<'a> {
    PlatformRuntimePaths {
        standard_data_dir: Some(data),
        standard_settings_dir: settings,
        case_insensitive: true,
        absolute_needs_prefix: true,
    }
}

#[test]
fn a_startup_directory_without_a_drive_is_not_absolute_where_drives_are_required() {
    let data = on_drive("C:", &["data", "orbok"]);
    let settings = on_drive("C:", &["config", "orbok"]);
    let result = RuntimeContext::resolve(
        RuntimeSelection::resolve(false, None).unwrap(),
        &on_drive("", &["launch"]),
        drive_platform(&data, &settings),
    );
    assert_eq!(result.err(), Some(RuntimeContextError::StartupDirectoryNotAbsolute));
}

#[test]
fn a_root_path_without_a_drive_lands_on_the_startup_drive() {
    let data = on_drive("", &["data", "orbok"]);
    let settings = on_drive("", &["config", "orbok"]);
    let context = RuntimeContext::resolve(
        RuntimeSelection::resolve(false, None).unwrap(),
        &on_drive("D:", &["launch"]),
        drive_platform(&data, &settings),
    )
    .unwrap();
    assert_eq!(context.data_dir(), &on_drive("D:", &["data", "orbok"]));
    assert_eq!(context.settings_file(), &on_drive("D:", &["config", "orbok", "settings.json"]));
}
