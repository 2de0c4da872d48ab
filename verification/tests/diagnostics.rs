use orbok::diagnostics::{
    bundle_preview_text, collect_app_info, collect_platform_info, redact_absolute_paths,
    redact_text, redact_url_queries, BundleLabels, DiagnosticsManifest, DiagnosticsPolicy,
    DiagnosticsSectionKind,
};

fn policy(include_raw_paths: bool) -> DiagnosticsPolicy {
    DiagnosticsPolicy {
        privacy_mode: "standard".into(),
        include_raw_paths,
        include_folder_names: true,
        include_recent_searches: false,
    }
}

#[test]
fn each_section_has_its_own_file() {
    assert_eq!(DiagnosticsSectionKind::App.filename(), "app.json");
    assert_eq!(DiagnosticsSectionKind::Settings.filename(), "settings-redacted.json");
    assert_eq!(DiagnosticsSectionKind::Errors.filename(), "recent-errors.json");
    assert_eq!(DiagnosticsSectionKind::Logs.filename(), "logs-redacted.txt");
}

#[test]
fn the_manifest_records_exactly_what_the_policy_allows() {
    let manifest = DiagnosticsManifest::from_policy(&policy(false), "2024-01-02T03:04:05Z".into());
    assert_eq!(manifest.app, "orbok");
    assert_eq!(manifest.bundle_version, 1);
    assert_eq!(manifest.created_at, "2024-01-02T03:04:05Z");
    assert!(manifest.redacted);
    assert!(!manifest.includes_document_contents);
    assert!(!manifest.includes_search_text);
    assert!(!manifest.includes_raw_paths);
    assert!(manifest.includes_folder_names);
    assert!(!manifest.includes_recent_searches);
}

#[test]
fn app_info_names_the_version_and_the_build() {
    let info = collect_app_info("1.2.3", true);
    assert_eq!(info[0], ("app", "orbok".to_string()));
    assert_eq!(info[1], ("version", "1.2.3".to_string()));
    assert_eq!(info[2], ("build_profile", "debug".to_string()));
    assert_eq!(collect_app_info("1.2.3", false)[2].1, "release");
}

#[test]
fn a_path_keeps_only_its_file_name() {
    assert_eq!(redact_absolute_paths("/home/u/doc.md"), "<folder>/doc.md");
    assert_eq!(redact_absolute_paths("see /home/u/a.txt now"), "see <folder>/a.txt now");
    assert_eq!(redact_absolute_paths("no paths here"), "no paths here");
    assert_eq!(redact_absolute_paths("a/b c"), "a<folder>/b c");
    assert_eq!(redact_absolute_paths("x / y"), "x / y");
    assert_eq!(redact_absolute_paths("see>/a/b"), "see><folder>/b");
    assert_eq!(redact_absolute_paths("/a/ /b/c"), "<folder>/ <folder>/c");
}

#[test]
fn the_home_directory_becomes_home() {
    let redacted = redact_text("/home/me/notes.md", &policy(false), Some("/home/me"));
    assert_eq!(redacted, "<home><folder>/notes.md");
    assert_eq!(
        redact_text("see /home/me/notes.md now", &policy(false), Some("/home/me")),
        "see <home><folder>/notes.md now"
    );
    assert_eq!(
        redact_text("/home/me/notes.md", &policy(true), Some("/home/me")),
        "/home/me/notes.md"
    );
}

#[test]
fn every_query_is_redacted() {
    assert_eq!(redact_url_queries("GET /x?token=abc done"), "GET /x?<redacted query> done");
    assert_eq!(redact_url_queries("a?b&c=1 then d?e=2"), "a?<redacted query> then d?<redacted query>");
    assert_eq!(redact_url_queries("q=\"x?y\" z"), "q=\"x?<redacted query>\" z");
    assert_eq!(redact_url_queries("why? because"), "why? because");
    assert_eq!(redact_url_queries("end?"), "end?");
    assert_eq!(redact_url_queries("a?b?c"), "a?<redacted query>");
    assert_eq!(
        redact_text("fetch https://host/p?token=1 ok", &policy(false), None),
        "fetch https:/<folder>/p?<redacted query> ok"
    );
}

fn labels() -> BundleLabels {
    BundleLabels {
        included_heading: "Included:".into(),
        app_version: "App version".into(),
        platform_summary: "Platform".into(),
        folder_status_counts: "Folder counts".into(),
        search_preparation_status: "Preparation".into(),
        model_readiness: "Model".into(),
        redacted_logs: "Logs".into(),
        folder_names_opted_in: "Folder names".into(),
        not_included_heading: "Not included:".into(),
        documents: "Documents".into(),
        search_words: "Search words".into(),
        raw_folder_paths: "Folder paths".into(),
    }
}

#[test]
fn the_preview_lists_what_is_in_and_out() {
    let mut no_names = policy(false);
    no_names.include_folder_names = false;
    let text = bundle_preview_text(&labels(), &no_names);
    assert_eq!(
        text,
        "Included:\n  \u{2713} App version\n  \u{2713} Platform\n  \u{2713} Folder counts\n  \u{2713} Preparation\n  \u{2713} Model\n  \u{2713} Logs\n\nNot included:\n  \u{d7} Documents\n  \u{d7} Search words\n  \u{d7} Folder paths"
    );
}

#[test]
fn folder_names_are_listed_only_when_opted_in() {
    let mut without = policy(false);
    without.include_folder_names = false;
    assert!(!bundle_preview_text(&labels(), &without).contains("Folder names"));
    assert!(bundle_preview_text(&labels(), &policy(false)).contains("  \u{2713} Folder names\n\nNot included:"));
}

#[test]
fn platform_info_names_the_platform() {
    let info = collect_platform_info("linux", "x86_64", "unix");
    assert_eq!(info[0], ("os", "linux".to_string()));
    assert_eq!(info[1], ("arch", "x86_64".to_string()));
    assert_eq!(info[2], ("family", "unix".to_string()));
}

#[test]
fn every_occurrence_of_the_home_directory_is_replaced_from_the_left() {
    assert_eq!(redact_text("a/hb/h", &policy(false), Some("/h")), "a<home>b<home>");
    assert_eq!(redact_text("/h/h/h", &policy(false), Some("/h/h")), "<home><folder>/h");
    assert_eq!(redact_text("ab", &policy(false), Some("")), "<home>a<home>b<home>");
}
