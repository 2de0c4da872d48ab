use orbok::search_scope::{
    after_folder_picked, is_blank, should_record_search, scope_from_ui, text_before, ActiveFilter, SearchLocation,
};
use orbok::text::ascii_lowercase;

fn kind(extensions: &[&str]) -> ActiveFilter {
    ActiveFilter::Kind { extensions: extensions.iter().map(|e| e.to_string()).collect() }
}

fn folder(id: &str) -> ActiveFilter {
    ActiveFilter::Folder { id: id.to_string() }
}

#[test]
fn kind_filters_give_their_extensions_lowercased_sorted_and_once() {
    let filters = vec![kind(&["MD", "txt"]), ActiveFilter::Other, kind(&["pdf", "md", "Txt"])];
    let scope = scope_from_ui(&filters, None);
    assert_eq!(scope.extensions, vec!["md", "pdf", "txt"]);
    assert!(scope.folder.is_none());
}

#[test]
fn no_filter_searches_every_kind_everywhere() {
    let scope = scope_from_ui(&Vec::new(), None);
    assert!(scope.extensions.is_empty());
    assert!(scope.folder.is_none());
}

#[test]
fn the_first_folder_chip_stands_in_for_a_location() {
    let filters = vec![kind(&["md"]), folder("src-1"), folder("src-2")];
    let scope = scope_from_ui(&filters, None);
    let chosen = scope.folder.expect("a folder chip limits the search");
    assert_eq!(chosen.source_id, "src-1");
    assert_eq!(chosen.limit_path, None);
    assert!(chosen.include_subfolders);
}

#[test]
fn a_selected_location_wins_over_a_folder_chip() {
    let filters = vec![folder("src-1")];
    let location = SearchLocation {
        source_id: Some("src-9".to_string()),
        limit_path: Some("/docs/notes".to_string()),
        include_subfolders: false,
    };
    let chosen = scope_from_ui(&filters, Some(&location)).folder.unwrap();
    assert_eq!(chosen.source_id, "src-9");
    assert_eq!(chosen.limit_path.as_deref(), Some("/docs/notes"));
    assert!(!chosen.include_subfolders);
}

#[test]
fn a_location_without_a_folder_leaves_the_chip_in_charge() {
    let location = SearchLocation { source_id: None, limit_path: None, include_subfolders: false };
    let chosen = scope_from_ui(&vec![folder("src-1")], Some(&location)).folder.unwrap();
    assert_eq!(chosen.source_id, "src-1");
    assert!(chosen.include_subfolders);
    assert!(scope_from_ui(&Vec::new(), Some(&location)).folder.is_none());
}

#[test]
fn texts_are_ordered_as_str_orders_them() {
    assert!(text_before("md", "pdf"));
    assert!(!text_before("pdf", "md"));
    assert!(text_before("md", "mdx"));
    assert!(!text_before("md", "md"));
    assert!(text_before("Z", "a"));
    assert!(text_before("é", "日"));
    assert_eq!("é" < "日", text_before("é", "日"));
}

#[test]
fn only_ascii_letters_are_lowercased() {
    assert_eq!(ascii_lowercase("ReadMe.MD"), "readme.md");
    assert_eq!(ascii_lowercase("ÄÖ"), "ÄÖ");
    assert_eq!(ascii_lowercase("[@]`"), "[@]`");
}

#[test]
fn the_typed_query_is_resumed_after_the_pick() {
    assert_eq!(after_folder_picked(Some("alpha")), Some("alpha".to_string()));
    assert_eq!(after_folder_picked(Some("  beta ")), Some("  beta ".to_string()));
}

#[test]
fn nothing_pending_resumes_nothing() {
    assert_eq!(after_folder_picked(None), None);
    assert_eq!(after_folder_picked(Some("")), None);
    assert_eq!(after_folder_picked(Some(" \t\u{3000}")), None);
    assert!(is_blank("\n "));
    assert!(!is_blank(" x "));
}

#[test]
fn only_an_enabled_history_records_and_never_a_blank_query() {
    assert!(should_record_search(true, "alpha"));
    assert!(!should_record_search(false, "alpha"));
    assert!(!should_record_search(true, "   "));
    assert!(!should_record_search(true, ""));
}
