use orbok::paths::{PathPart, ProfilePath};
use orbok::physical_identity::{
    physically_separate, separation_candidates, validate_missing_suffix, FileIdentity,
    LocateState, LocateStep, PhysicalLocation, ProbeOutcome, SuffixError,
};
use orbok::runtime_context::{PlatformRuntimePaths, RuntimeContext, RuntimeSelection};

fn absolute(parts: &[&str]) -> ProfilePath {
    let mut path = ProfilePath::parse("/");
    for part in parts {
        path = path.join_name(part);
    }
    path
}

fn location(device: u64, index: u64, resolved: &[&str], missing: &[&str]) -> PhysicalLocation {
    let mut suffix = ProfilePath::parse("");
    for name in missing {
        suffix = suffix.join_name(name);
    }
    PhysicalLocation {
        identity: FileIdentity { device, index },
        missing_suffix: suffix,
        resolved_path: absolute(resolved),
    }
}

fn texts(path: &ProfilePath) -> Vec<String> {
    path.parts()
        .iter()
        .map(|part| match part {
            PathPart::RootDir => "/".to_string(),
            PathPart::Normal(name) => name.clone(),
            other => format!("{other:?}"),
        })
        .collect()
}

#[test]
fn distinct_places_are_separate() {
    let portable = vec![location(1, 10, &["p", "data"], &[])];
    let standard = vec![location(1, 20, &["s", "data"], &[])];
    assert!(physically_separate(&portable, &standard, false));
}

#[test]
fn a_resolved_path_inside_another_is_an_alias() {
    let portable = vec![location(1, 10, &["s", "data", "inner"], &[])];
    let standard = vec![location(1, 20, &["s", "data"], &[])];
    assert!(!physically_separate(&portable, &standard, false));
}

#[test]
fn one_identity_with_overlapping_missing_names_is_an_alias() {
    let portable = vec![location(7, 70, &["mnt", "a"], &["orbok"])];
    let standard = vec![location(7, 70, &["home", "b"], &["orbok", "catalog.sqlite3"])];
    assert!(!physically_separate(&portable, &standard, false));
    let elsewhere = vec![location(7, 70, &["home", "b"], &["other"])];
    assert!(physically_separate(&portable, &elsewhere, false));
}

#[test]
fn folded_case_decides_only_where_names_fold() {
    let portable = vec![location(1, 10, &["Data"], &[])];
    let standard = vec![location(1, 20, &["data"], &[])];
    assert!(physically_separate(&portable, &standard, false));
    assert!(!physically_separate(&portable, &standard, true));
}

#[test]
fn the_candidates_are_the_profile_files_on_both_sides() {
    let startup = absolute(&["launch"]);
    let standard_data = absolute(&["local", "orbok"]);
    let standard_settings = absolute(&["config", "orbok"]);
    let context = RuntimeContext::resolve(
        RuntimeSelection::resolve(true, None).unwrap(),
        &startup,
        PlatformRuntimePaths {
            standard_data_dir: Some(&standard_data),
            standard_settings_dir: &standard_settings,
            case_insensitive: false,
            absolute_needs_prefix: false,
        },
    )
    .unwrap();
    let (portable, standard) =
        separation_candidates(&context, Some(&standard_data), &standard_settings);
    assert_eq!(portable.len(), 3);
    assert!(portable[0].equals(context.data_dir()));
    assert!(portable[1].equals(context.catalog_file()));
    assert!(portable[2].equals(context.settings_file()));
    assert_eq!(texts(&standard[0]), ["/", "config", "orbok"]);
    assert_eq!(texts(&standard[1]), ["/", "config", "orbok", "settings.json"]);
    assert_eq!(texts(&standard[2]), ["/", "local", "orbok"]);
    assert_eq!(texts(&standard[3]), ["/", "local", "orbok", "catalog.sqlite3"]);
    let (_, without_data) = separation_candidates(&context, None, &standard_settings);
    assert_eq!(without_data.len(), 2);
}

#[test]
fn a_non_ascii_missing_name_is_refused_only_where_names_are_normalized() {
    let suffix = ProfilePath::parse("profile/データ");
    assert_eq!(validate_missing_suffix(&suffix, true), Err(SuffixError::NonAsciiSuffix));
    assert_eq!(validate_missing_suffix(&suffix, false), Ok(()));
    assert_eq!(validate_missing_suffix(&ProfilePath::parse("profile/data"), true), Ok(()));
}

#[test]
fn the_walk_climbs_to_the_nearest_existing_ancestor() {
    let state = LocateState::start(absolute(&["home", "me", "orbok", "catalog.sqlite3"]));
    assert_eq!(texts(&state.existing()), ["/", "home", "me", "orbok", "catalog.sqlite3"]);
    let state = match state.step(ProbeOutcome::NotFound, false) {
        LocateStep::Probe(next) => next,
        _ => panic!("a missing file climbs to its folder"),
    };
    assert_eq!(texts(&state.existing()), ["/", "home", "me", "orbok"]);
    let state = match state.step(ProbeOutcome::NotFound, false) {
        LocateStep::Probe(next) => next,
        _ => panic!("a missing folder climbs to its parent"),
    };
    assert_eq!(texts(&state.existing()), ["/", "home", "me"]);
    let resolved = absolute(&["real", "me"]);
    match state.step(
        ProbeOutcome::Resolved { resolved, identity: FileIdentity { device: 3, index: 9 } },
        false,
    ) {
        LocateStep::Located(location) => {
            assert_eq!(location.identity, FileIdentity { device: 3, index: 9 });
            assert_eq!(texts(&location.missing_suffix), ["orbok", "catalog.sqlite3"]);
            assert_eq!(
                texts(&location.resolved_path),
                ["/", "real", "me", "orbok", "catalog.sqlite3"]
            );
        }
        _ => panic!("an existing ancestor locates the path"),
    }
}

#[test]
fn an_existing_path_has_no_missing_names() {
    let state = LocateState::start(absolute(&["data"]));
    match state.step(
        ProbeOutcome::Resolved { resolved: absolute(&["data"]), identity: FileIdentity { device: 1, index: 2 } },
        true,
    ) {
        LocateStep::Located(location) => {
            assert!(location.missing_suffix.parts().is_empty());
            assert_eq!(texts(&location.resolved_path), ["/", "data"]);
        }
        _ => panic!("the path itself exists"),
    }
}

#[test]
fn the_walk_stops_at_the_root_and_on_other_failures() {
    let state = LocateState::start(absolute(&[]));
    assert!(matches!(state.step(ProbeOutcome::NotFound, false), LocateStep::NoExistingAncestor));
    let state = LocateState::start(absolute(&["a"]));
    assert!(matches!(state.step(ProbeOutcome::Failed, false), LocateStep::Failed));
    let state = LocateState::start(path_ending_in_parent_dir());
    assert!(matches!(state.step(ProbeOutcome::NotFound, false), LocateStep::NoExistingAncestor));
}

fn path_ending_in_parent_dir() -> ProfilePath {
    ProfilePath::parse("/a/..")
}

#[test]
fn a_non_ascii_missing_name_stops_the_walk_where_names_are_normalized() {
    let state = LocateState::start(absolute(&["home", "データ"]));
    let state = match state.step(ProbeOutcome::NotFound, true) {
        LocateStep::Probe(next) => next,
        _ => panic!("climbs"),
    };
    let outcome = ProbeOutcome::Resolved {
        resolved: absolute(&["home"]),
        identity: FileIdentity { device: 1, index: 1 },
    };
    assert!(matches!(state.step(outcome, true), LocateStep::NonAsciiSuffix));
}
