use orbok::launch::{
    add_folder_failed, classify_refusal, cleanup_storage_unavailable, explorer_path,
    explorer_select_arg, launch_outcome, launch_request, reset_failed, reset_storage_unavailable,
    result_not_launched, search_folder_failed, setting_not_saved, source_not_removed,
    LaunchAction, LaunchFailure, LaunchMessage, LaunchStage, NoticeAction, NoticeMessage,
    RecoveryAction, RefusalKind, UserNotice,
};

/// The requests a notice's button may re-send, as the application's own
/// messages would carry them.
#[derive(Debug, Clone, PartialEq)]
enum Request {
    SetTheme(&'static str),
    SetReducedMotion(bool),
    CleanSnippets,
    CleanSearchCache,
    CleanTemporaryExtraction,
    RemoveReplacedStaleIndexes,
}

/// The notice shown, and what its button dispatches.
fn raise(message: NoticeMessage<Request>) -> (Option<UserNotice>, Option<NoticeAction<Request>>) {
    (Some(message.notice), message.action)
}

#[test]
fn adding_a_folder_retries_with_the_add_folder_picker() {
    let (notice, action) = raise(add_folder_failed());
    assert_eq!(notice, Some(UserNotice::FolderCouldNotBeAdded));
    assert!(matches!(action, Some(NoticeAction::RequestAddSource)));
}

#[test]
fn adding_a_search_folder_retries_with_the_search_folder_picker() {
    let (notice, action) = raise(search_folder_failed());
    assert_eq!(notice, Some(UserNotice::FolderCouldNotBeAdded));
    assert!(matches!(action, Some(NoticeAction::ChooseFolderRequested)));
}

#[test]
fn a_file_not_found_goes_to_folders() {
    let (notice, action) = raise(result_not_launched(LaunchFailure::NotFound));
    assert_eq!(notice, Some(UserNotice::FileCouldNotBeFound));
    assert!(matches!(action, Some(NoticeAction::GoToSources)));
}

#[test]
fn a_file_that_would_not_open_offers_to_show_that_same_file_in_its_folder() {
    let (notice, action) = raise(result_not_launched(LaunchFailure::CouldNotOpen {
        index: 3,
        action: LaunchAction::Open,
    }));
    assert_eq!(notice, Some(UserNotice::FileCouldNotBeOpened));
    assert!(matches!(action, Some(NoticeAction::RevealResult(3))));
}

#[test]
fn a_failed_reveal_offers_no_button() {
    let (notice, action) = raise(result_not_launched(LaunchFailure::CouldNotOpen {
        index: 3,
        action: LaunchAction::Reveal,
    }));
    assert_eq!(notice, Some(UserNotice::FileCouldNotBeOpened));
    assert!(action.is_none(), "showing it in its folder is what just failed");
}

#[test]
fn a_file_not_allowed_offers_no_button() {
    let (notice, action) = raise(result_not_launched(LaunchFailure::NotAllowed));
    assert_eq!(notice, Some(UserNotice::FileNotAllowed));
    assert!(action.is_none(), "retrying cannot change a permission");
}

#[test]
fn check_failed_retries_the_same_action_on_the_same_result() {
    let (notice, action) = raise(result_not_launched(LaunchFailure::CheckFailed {
        index: 2,
        action: LaunchAction::Open,
    }));
    assert_eq!(notice, Some(UserNotice::FileCheckFailed));
    assert!(matches!(action, Some(NoticeAction::OpenResult(2))), "{action:?}");
    let (notice, action) = raise(result_not_launched(LaunchFailure::CheckFailed {
        index: 2,
        action: LaunchAction::Reveal,
    }));
    assert_eq!(notice, Some(UserNotice::FileCheckFailed));
    assert!(
        matches!(action, Some(NoticeAction::RevealResult(2))),
        "a failed reveal retries the reveal, got {action:?}"
    );
}

#[test]
fn a_setting_not_saved_re_sends_that_exact_change() {
    let (notice, action) = raise(setting_not_saved(Request::SetTheme("dark")));
    assert_eq!(notice, Some(UserNotice::SettingCouldNotBeSaved));
    assert!(matches!(action, Some(NoticeAction::Repeat(Request::SetTheme("dark")))));
    let (_, action) = raise(setting_not_saved(Request::SetReducedMotion(true)));
    assert!(matches!(action, Some(NoticeAction::Repeat(Request::SetReducedMotion(true)))));
}

#[test]
fn a_cleanup_without_storage_re_issues_that_cleanup() {
    for cleanup in [
        Request::CleanSnippets,
        Request::CleanSearchCache,
        Request::CleanTemporaryExtraction,
        Request::RemoveReplacedStaleIndexes,
    ] {
        let (notice, action) = raise(cleanup_storage_unavailable(cleanup.clone()));
        assert_eq!(notice, Some(UserNotice::StorageUnavailable));
        match action {
            Some(NoticeAction::Repeat(again)) => assert_eq!(again, cleanup),
            other => panic!("Try again re-issues {cleanup:?}, got {other:?}"),
        }
    }
}

#[test]
fn a_failed_reset_re_opens_the_confirmation_and_never_resets() {
    for raised in [reset_failed(), reset_storage_unavailable()] {
        let (notice, action) = raise(raised);
        assert!(notice.is_some());
        assert!(
            matches!(action, Some(NoticeAction::AskResetCatalog)),
            "Try again re-opens the reset confirmation, got {action:?}"
        );
    }
    assert_eq!(reset_failed::<Request>().notice, UserNotice::CatalogResetFailed);
    assert_eq!(reset_storage_unavailable::<Request>().notice, UserNotice::StorageUnavailable);
}

#[test]
fn a_failed_folder_removal_re_opens_its_confirmation() {
    let (notice, action) = raise(source_not_removed("src-7"));
    assert_eq!(notice, Some(UserNotice::SourceCouldNotBeRemoved));
    assert!(
        matches!(&action, Some(NoticeAction::AskRemoveSource(id)) if id == "src-7"),
        "Try again re-opens the confirmation for the same folder, got {action:?}"
    );
}

#[test]
fn explorer_path_removes_only_the_verbatim_prefix() {
    assert_eq!(explorer_path(r"\\?\C:\Users\a b\note.md"), r"C:\Users\a b\note.md");
    assert_eq!(explorer_path(r"\\?\UNC\server\share\note.md"), r"\\server\share\note.md");
    assert_eq!(explorer_path(r"C:\plain\note.md"), r"C:\plain\note.md");
    assert_eq!(explorer_path("/home/user/note.md"), "/home/user/note.md");
}

#[test]
fn a_verbatim_path_without_a_drive_keeps_its_prefix() {
    assert_eq!(explorer_path(r"\\?\Volume{1}\note.md"), r"\\?\Volume{1}\note.md");
    assert_eq!(explorer_path(r"\\?\"), r"\\?\");
}

#[test]
fn the_explorer_select_argument_always_quotes_the_path() {
    assert_eq!(
        explorer_select_arg(r"C:\docs\report,final.pdf"),
        r#"/select,"C:\docs\report,final.pdf""#
    );
    assert_eq!(
        explorer_select_arg(r"\\?\C:\docs\plain.pdf"),
        r#"/select,"C:\docs\plain.pdf""#,
        "the verbatim prefix is removed before quoting"
    );
}

#[test]
fn recovery_actions_share_the_open_and_reveal_path() {
    assert_eq!(launch_request(&LaunchMessage::OpenResult(2)), Some((2, LaunchAction::Open)));
    assert_eq!(launch_request(&LaunchMessage::RevealResult(2)), Some((2, LaunchAction::Reveal)));
    assert_eq!(
        launch_request(&LaunchMessage::TrustRecoveryAction {
            result_idx: 3,
            action: RecoveryAction::OpenAnyway,
        }),
        Some((3, LaunchAction::Open))
    );
    assert_eq!(
        launch_request(&LaunchMessage::TrustRecoveryAction {
            result_idx: 3,
            action: RecoveryAction::ShowInFolder,
        }),
        Some((3, LaunchAction::Reveal))
    );
    assert_eq!(
        launch_request(&LaunchMessage::TrustRecoveryAction {
            result_idx: 3,
            action: RecoveryAction::Other,
        }),
        None
    );
    assert_eq!(launch_request(&LaunchMessage::Other), None);
}

#[test]
fn a_file_that_exists_but_would_not_open_is_not_reported_as_moved() {
    assert_eq!(
        launch_outcome(0, LaunchAction::Open, LaunchStage::Launched { ok: false }),
        Some(LaunchFailure::CouldNotOpen { index: 0, action: LaunchAction::Open }),
        "the file is right there; it just would not open"
    );
}

#[test]
fn a_reveal_that_failed_is_could_not_open_for_the_reveal() {
    assert_eq!(
        launch_outcome(0, LaunchAction::Reveal, LaunchStage::Launched { ok: false }),
        Some(LaunchFailure::CouldNotOpen { index: 0, action: LaunchAction::Reveal })
    );
}

#[test]
fn a_launched_result_has_no_failure() {
    assert_eq!(launch_outcome(5, LaunchAction::Open, LaunchStage::Launched { ok: true }), None);
}

#[test]
fn an_unreadable_folder_list_retries_the_same_request() {
    assert_eq!(
        launch_outcome(4, LaunchAction::Reveal, LaunchStage::FolderListUnreadable),
        Some(LaunchFailure::CheckFailed { index: 4, action: LaunchAction::Reveal })
    );
}

#[test]
fn a_policy_refusal_is_unclassified() {
    assert_eq!(classify_refusal(RefusalKind::PolicyBlocked, true), LaunchFailure::Unclassified);
    assert_eq!(
        launch_outcome(
            0,
            LaunchAction::Open,
            LaunchStage::Refused { kind: RefusalKind::PolicyBlocked, path_exists: true }
        ),
        Some(LaunchFailure::Unclassified)
    );
}

#[test]
fn a_canonicalization_failure_on_an_existing_file_is_unclassified() {
    assert_eq!(
        classify_refusal(RefusalKind::PathCanonicalization, true),
        LaunchFailure::Unclassified
    );
    assert_eq!(
        classify_refusal(RefusalKind::PathCanonicalization, false),
        LaunchFailure::NotFound
    );
}

#[test]
fn each_refusal_is_classified_by_what_the_path_is() {
    assert_eq!(classify_refusal(RefusalKind::PathOutsideSources, true), LaunchFailure::NotFound);
    assert_eq!(classify_refusal(RefusalKind::Io, true), LaunchFailure::Unclassified);
    assert_eq!(classify_refusal(RefusalKind::Io, false), LaunchFailure::NotFound);
    assert_eq!(classify_refusal(RefusalKind::Other, true), LaunchFailure::NotFound);
}

#[test]
fn an_unclassified_refusal_offers_no_button() {
    let (notice, action) = raise(result_not_launched(LaunchFailure::Unclassified));
    assert_eq!(notice, Some(UserNotice::FileCouldNotBeOpened));
    assert!(action.is_none());
}
