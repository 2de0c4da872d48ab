use orbok::paths::{PathPart, ProfilePath};
use orbok::sources::{add_decision, display_name_from, AddDecision, AddRefusal, expand_home, folder_display_name, typed_source_path, refresh_outcome, PathCheck, SourcePathError, SourceStatus};

#[test]
fn a_leading_tilde_is_the_home_directory() {
    let home = Some("/home/me");
    assert_eq!(expand_home("~/Documents", home), "/home/me/Documents");
    assert_eq!(expand_home("~", home), "/home/me");
    assert_eq!(expand_home("/data/a~b", home), "/data/a~b");
    assert_eq!(expand_home("docs/~x", home), "docs/~x");
}

#[test]
fn a_tilde_expands_to_the_injected_home_even_where_home_is_unset() {
    let windows = Some(r"C:\Users\me");
    assert_eq!(
        expand_home(r"~\Documents", windows),
        r"C:\Users\me\Documents"
    );
    assert_eq!(expand_home("~", windows), r"C:\Users\me");
    assert_eq!(expand_home(r"~\Documents", None), r"~\Documents");
    assert_eq!(expand_home("~/Documents", None), "~/Documents");
}

#[test]
fn a_folder_is_shown_by_its_last_name_or_else_its_whole_path() {
    assert_eq!(folder_display_name("/home/user/Projects"), "Projects");
    assert_eq!(folder_display_name("/data/Reports/"), "Reports");
    assert_eq!(folder_display_name("/"), "/");
    assert_eq!(folder_display_name("/data/.."), "/data/..");
}

#[test]
fn a_typed_path_is_trimmed_and_expanded() {
    assert_eq!(typed_source_path("  ~/Notes \n", Some("/home/me")), Ok("/home/me/Notes".to_string()));
    assert_eq!(typed_source_path("/data", None), Ok("/data".to_string()));
    assert_eq!(typed_source_path(" \t ", Some("/home/me")), Err(SourcePathError::EmptyPath));
    assert_eq!(typed_source_path("", None), Err(SourcePathError::EmptyPath));
}

#[test]
fn only_a_reachable_folder_is_scanned_on_refresh() {
    assert_eq!(refresh_outcome(PathCheck::Active), (SourceStatus::Active, true));
    assert_eq!(refresh_outcome(PathCheck::FolderNotFound), (SourceStatus::Missing, false));
    assert_eq!(
        refresh_outcome(PathCheck::PermissionProblem),
        (SourceStatus::PermissionDenied, false)
    );
}

#[test]
fn adding_a_folder_is_decided_in_order() {
    let typed = || typed_source_path("~/Docs", Some("/home/me"));
    assert!(matches!(
        add_decision(typed_source_path("  ", None), Some("/x".into()), None, true),
        AddDecision::Refused(AddRefusal::EmptyPath)
    ));
    assert!(matches!(
        add_decision(typed(), None, None, true),
        AddDecision::Refused(AddRefusal::CannotAccess)
    ));
    assert!(matches!(
        add_decision(typed(), Some("/home/me/Docs".into()), Some("src-1".into()), false),
        AddDecision::AlreadyRegistered(id) if id == "src-1"
    ));
    assert!(matches!(
        add_decision(typed(), Some("/home/me/one.md".into()), None, false),
        AddDecision::Refused(AddRefusal::NotAFolder)
    ));
    match add_decision(typed(), Some("/home/me/Docs".into()), None, true) {
        AddDecision::Add { original_path, canonical_path, display_name } => {
            assert_eq!(original_path, "/home/me/Docs");
            assert_eq!(canonical_path, "/home/me/Docs");
            assert_eq!(display_name, "Docs");
        }
        other => panic!("a new folder is added, got {other:?}"),
    }
}

fn windows_path(parts: Vec<PathPart>) -> ProfilePath {
    ProfilePath::from_parts(parts).expect("a well-formed component list")
}

#[test]
fn a_drive_or_share_path_is_shown_by_its_last_name() {
    let folder = windows_path(vec![
        PathPart::Prefix(r"C:".to_string()),
        PathPart::RootDir,
        PathPart::Normal("Users".to_string()),
        PathPart::Normal("Reports".to_string()),
    ]);
    assert_eq!(display_name_from(&folder, r"C:\Users\Reports"), "Reports");

    let drive_root = windows_path(vec![PathPart::Prefix(r"C:".to_string()), PathPart::RootDir]);
    assert_eq!(display_name_from(&drive_root, r"C:\"), r"C:\");

    let share = windows_path(vec![
        PathPart::Prefix(r"\\server\share".to_string()),
        PathPart::RootDir,
        PathPart::Normal("a".to_string()),
    ]);
    assert_eq!(display_name_from(&share, r"\\server\share\a"), "a");
}

#[test]
fn a_name_with_a_slash_in_a_verbatim_path_is_one_component() {
    let verbatim = windows_path(vec![
        PathPart::Prefix(r"\\?\C:".to_string()),
        PathPart::RootDir,
        PathPart::Normal("a/b".to_string()),
    ]);
    assert_eq!(display_name_from(&verbatim, r"\\?\C:\a/b"), "a/b");
}
