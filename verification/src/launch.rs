//! Opening a search result, or showing it in its folder, and the notice
//! shown when that did not happen.
//!
//! Every launch goes through one classification: which failure happened,
//! and what the notice's button (if any) does. A retry repeats the failed
//! request; a destructive retry re-opens its confirmation and never acts.

use crate::text::{append_text, owned, starts_with_text, suffix_from};
use vstd::prelude::*;
use vstd::string::*;

verus! {

broadcast use vstd::string::group_string_axioms;

/// What to do with a validated result path.
#[derive(Clone, Copy, Debug, PartialEq, Eq, Structural)]
pub enum LaunchAction {
    Open,
    Reveal,
}

/// A recovery action offered on a result that could not be trusted.
#[derive(Clone, Copy, Debug, PartialEq, Eq, Structural)]
pub enum RecoveryAction {
    OpenAnyway,
    ShowInFolder,
    /// Any recovery action that launches nothing.
    Other,
}

/// The messages that may ask to launch a result.
#[derive(Clone, Copy, Debug, PartialEq, Eq, Structural)]
pub enum LaunchMessage {
    OpenResult(usize),
    RevealResult(usize),
    TrustRecoveryAction { result_idx: usize, action: RecoveryAction },
    /// Any other message.
    Other,
}

/// Which result a message asks to launch, and how. Opening anyway and
/// showing in the folder are the same two operations on the same result.
pub open spec fn launch_request_spec(message: LaunchMessage) -> Option<(usize, LaunchAction)> {
    match message {
        LaunchMessage::OpenResult(index) => Some((index, LaunchAction::Open)),
        LaunchMessage::RevealResult(index) => Some((index, LaunchAction::Reveal)),
        LaunchMessage::TrustRecoveryAction { result_idx, action } => match action {
            RecoveryAction::OpenAnyway => Some((result_idx, LaunchAction::Open)),
            RecoveryAction::ShowInFolder => Some((result_idx, LaunchAction::Reveal)),
            RecoveryAction::Other => None,
        },
        LaunchMessage::Other => None,
    }
}

pub fn launch_request(message: &LaunchMessage) -> (r: Option<(usize, LaunchAction)>)
    ensures
        r == launch_request_spec(*message),
{
    match message {
        LaunchMessage::OpenResult(index) => Some((*index, LaunchAction::Open)),
        LaunchMessage::RevealResult(index) => Some((*index, LaunchAction::Reveal)),
        LaunchMessage::TrustRecoveryAction { result_idx, action } => match action {
            RecoveryAction::OpenAnyway => Some((*result_idx, LaunchAction::Open)),
            RecoveryAction::ShowInFolder => Some((*result_idx, LaunchAction::Reveal)),
            RecoveryAction::Other => None,
        },
        LaunchMessage::Other => None,
    }
}

/// Why a result was not launched.
#[derive(Clone, Copy, Debug, PartialEq, Eq, Structural)]
pub enum LaunchFailure {
    /// The file is no longer where it was found: gone, outside every
    /// searched folder, or on a drive that cannot be reached.
    NotFound,
    /// Opening it is not allowed.
    NotAllowed,
    /// The folder list could not be read to check it; retrying repeats the
    /// action on the same result.
    CheckFailed { index: usize, action: LaunchAction },
    /// The file checked out, but the launcher failed on the action.
    CouldNotOpen { index: usize, action: LaunchAction },
    /// Validation refused a file that is still there, for a reason no
    /// other failure names: a folder rule, or a path that could not be
    /// resolved though it exists.
    Unclassified,
}

/// How path validation refused a result.
#[derive(Clone, Copy, Debug, PartialEq, Eq, Structural)]
pub enum RefusalKind {
    /// The path is outside every searchable folder.
    PathOutsideSources,
    /// A folder rule blocks the path.
    PolicyBlocked,
    /// Resolving the path failed.
    PathCanonicalization,
    /// Reading the path's metadata failed.
    Io,
    /// Any refusal the path check does not itself produce.
    Other,
}

/// The failure a refusal is: outside the folders is not found; a folder
/// rule is unclassified; a path that could not be resolved or read is not
/// found when it no longer exists, and unclassified when it does; anything
/// else is not found, whose way out -- the folder list -- stays useful.
pub open spec fn refusal_failure(kind: RefusalKind, path_exists: bool) -> LaunchFailure {
    match kind {
        RefusalKind::PathOutsideSources => LaunchFailure::NotFound,
        RefusalKind::PolicyBlocked => LaunchFailure::Unclassified,
        RefusalKind::PathCanonicalization | RefusalKind::Io => if path_exists {
            LaunchFailure::Unclassified
        } else {
            LaunchFailure::NotFound
        },
        RefusalKind::Other => LaunchFailure::NotFound,
    }
}

/// Classifies a refusal. `path_exists` is whether the path itself is still
/// there; the refusal's message is never read.
pub fn classify_refusal(kind: RefusalKind, path_exists: bool) -> (r: LaunchFailure)
    ensures
        r == refusal_failure(kind, path_exists),
{
    match kind {
        RefusalKind::PathOutsideSources => LaunchFailure::NotFound,
        RefusalKind::PolicyBlocked => LaunchFailure::Unclassified,
        RefusalKind::PathCanonicalization | RefusalKind::Io => {
            if path_exists {
                LaunchFailure::Unclassified
            } else {
                LaunchFailure::NotFound
            }
        },
        RefusalKind::Other => LaunchFailure::NotFound,
    }
}

/// How each stage of a launch went.
#[derive(Clone, Copy, Debug, PartialEq, Eq, Structural)]
pub enum LaunchStage {
    /// The folder list could not be read.
    FolderListUnreadable,
    /// Validation refused the path.
    Refused { kind: RefusalKind, path_exists: bool },
    /// The path was validated and handed to the launcher, which succeeded
    /// or failed.
    Launched { ok: bool },
}

/// The outcome of launching result `index`: `None` when it was handed to
/// the launcher; otherwise the failure, classified by the stage that
/// failed.
pub open spec fn launch_outcome_spec(index: usize, action: LaunchAction, stage: LaunchStage) -> Option<
    LaunchFailure,
> {
    match stage {
        LaunchStage::FolderListUnreadable => Some(LaunchFailure::CheckFailed { index, action }),
        LaunchStage::Refused { kind, path_exists } => Some(refusal_failure(kind, path_exists)),
        LaunchStage::Launched { ok } => if ok {
            None
        } else {
            Some(LaunchFailure::CouldNotOpen { index, action })
        },
    }
}

pub fn launch_outcome(index: usize, action: LaunchAction, stage: LaunchStage) -> (r: Option<
    LaunchFailure,
>)
    ensures
        r == launch_outcome_spec(index, action, stage),
{
    match stage {
        LaunchStage::FolderListUnreadable => Some(LaunchFailure::CheckFailed { index, action }),
        LaunchStage::Refused { kind, path_exists } => Some(classify_refusal(kind, path_exists)),
        LaunchStage::Launched { ok } => {
            if ok {
                None
            } else {
                Some(LaunchFailure::CouldNotOpen { index, action })
            }
        },
    }
}

/// The user-facing notices.
#[derive(Clone, Copy, Debug, PartialEq, Eq, Structural)]
pub enum UserNotice {
    FolderCouldNotBeAdded,
    FileCouldNotBeFound,
    FileCouldNotBeOpened,
    FileNotAllowed,
    FileCheckFailed,
    SettingCouldNotBeSaved,
    StorageUnavailable,
    CatalogResetFailed,
    SourceCouldNotBeRemoved,
}

/// What a notice's button dispatches. `Repeat` re-sends a request the
/// caller supplied.
#[derive(Debug)]
pub enum NoticeAction<M> {
    RequestAddSource,
    ChooseFolderRequested,
    GoToSources,
    OpenResult(usize),
    RevealResult(usize),
    AskResetCatalog,
    AskRemoveSource(String),
    Repeat(M),
}

/// A notice, with the action of its button if it has one.
#[derive(Debug)]
pub struct NoticeMessage<M> {
    pub notice: UserNotice,
    pub action: Option<NoticeAction<M>>,
}

/// Adding a folder failed: choose another folder, with the add-folder
/// picker.
pub fn add_folder_failed<M>() -> (r: NoticeMessage<M>)
    ensures
        r.notice == UserNotice::FolderCouldNotBeAdded,
        r.action matches Some(NoticeAction::RequestAddSource),
{
    NoticeMessage { notice: UserNotice::FolderCouldNotBeAdded, action: Some(NoticeAction::RequestAddSource) }
}

/// Adding the folder picked for a search failed: choose another, with the
/// search-in-folder picker.
pub fn search_folder_failed<M>() -> (r: NoticeMessage<M>)
    ensures
        r.notice == UserNotice::FolderCouldNotBeAdded,
        r.action matches Some(NoticeAction::ChooseFolderRequested),
{
    NoticeMessage {
        notice: UserNotice::FolderCouldNotBeAdded,
        action: Some(NoticeAction::ChooseFolderRequested),
    }
}

/// The notice for a result that was not launched: not found goes to the
/// folder list; a failed open offers to show that same result in its
/// folder; a failed reveal, a refused permission and an unclassified
/// refusal offer nothing; a failed check retries the same action on the same result.
pub fn result_not_launched<M>(failure: LaunchFailure) -> (r: NoticeMessage<M>)
    ensures
        match failure {
            LaunchFailure::NotFound => r.notice == UserNotice::FileCouldNotBeFound && (
            r.action matches Some(NoticeAction::GoToSources)),
            LaunchFailure::CouldNotOpen { index, action: LaunchAction::Open } => r.notice
                == UserNotice::FileCouldNotBeOpened && (r.action matches Some(
                NoticeAction::RevealResult(i),
            ) && i == index),
            LaunchFailure::CouldNotOpen { action: LaunchAction::Reveal, .. } => r.notice
                == UserNotice::FileCouldNotBeOpened && r.action is None,
            LaunchFailure::NotAllowed => r.notice == UserNotice::FileNotAllowed && r.action is None,
            LaunchFailure::Unclassified => r.notice == UserNotice::FileCouldNotBeOpened
                && r.action is None,
            LaunchFailure::CheckFailed { index, action } => r.notice == UserNotice::FileCheckFailed
                && match action {
                LaunchAction::Open => r.action matches Some(NoticeAction::OpenResult(i)) && i == index,
                LaunchAction::Reveal => r.action matches Some(NoticeAction::RevealResult(i)) && i
                    == index,
            },
        },
{
    match failure {
        LaunchFailure::NotFound => NoticeMessage {
            notice: UserNotice::FileCouldNotBeFound,
            action: Some(NoticeAction::GoToSources),
        },
        LaunchFailure::CouldNotOpen { index, action: LaunchAction::Open } => NoticeMessage {
            notice: UserNotice::FileCouldNotBeOpened,
            action: Some(NoticeAction::RevealResult(index)),
        },
        LaunchFailure::CouldNotOpen { action: LaunchAction::Reveal, .. } => NoticeMessage {
            notice: UserNotice::FileCouldNotBeOpened,
            action: None,
        },
        LaunchFailure::NotAllowed => NoticeMessage { notice: UserNotice::FileNotAllowed, action: None },
        LaunchFailure::Unclassified => NoticeMessage {
            notice: UserNotice::FileCouldNotBeOpened,
            action: None,
        },
        LaunchFailure::CheckFailed { index, action } => NoticeMessage {
            notice: UserNotice::FileCheckFailed,
            action: Some(
                match action {
                    LaunchAction::Open => NoticeAction::OpenResult(index),
                    LaunchAction::Reveal => NoticeAction::RevealResult(index),
                },
            ),
        },
    }
}

/// Saving a setting failed: try again re-sends that exact change.
pub fn setting_not_saved<M>(change: M) -> (r: NoticeMessage<M>)
    ensures
        r.notice == UserNotice::SettingCouldNotBeSaved,
        r.action matches Some(NoticeAction::Repeat(m)) && m == change,
{
    NoticeMessage { notice: UserNotice::SettingCouldNotBeSaved, action: Some(NoticeAction::Repeat(change)) }
}

/// A cleanup could not reach storage: try again re-issues that cleanup.
pub fn cleanup_storage_unavailable<M>(cleanup: M) -> (r: NoticeMessage<M>)
    ensures
        r.notice == UserNotice::StorageUnavailable,
        r.action matches Some(NoticeAction::Repeat(m)) && m == cleanup,
{
    NoticeMessage { notice: UserNotice::StorageUnavailable, action: Some(NoticeAction::Repeat(cleanup)) }
}

/// Reset could not reach storage: try again re-opens the reset
/// confirmation, never the reset itself.
pub fn reset_storage_unavailable<M>() -> (r: NoticeMessage<M>)
    ensures
        r.notice == UserNotice::StorageUnavailable,
        r.action matches Some(NoticeAction::AskResetCatalog),
{
    NoticeMessage { notice: UserNotice::StorageUnavailable, action: Some(NoticeAction::AskResetCatalog) }
}

/// Reset failed: try again re-opens the reset confirmation.
pub fn reset_failed<M>() -> (r: NoticeMessage<M>)
    ensures
        r.notice == UserNotice::CatalogResetFailed,
        r.action matches Some(NoticeAction::AskResetCatalog),
{
    NoticeMessage { notice: UserNotice::CatalogResetFailed, action: Some(NoticeAction::AskResetCatalog) }
}

/// Removing a folder failed: try again re-opens that folder's removal
/// confirmation, never the removal itself.
pub fn source_not_removed<M>(source_id: &str) -> (r: NoticeMessage<M>)
    ensures
        r.notice == UserNotice::SourceCouldNotBeRemoved,
        r.action matches Some(NoticeAction::AskRemoveSource(id)) && id@ == source_id@,
{
    NoticeMessage {
        notice: UserNotice::SourceCouldNotBeRemoved,
        action: Some(NoticeAction::AskRemoveSource(owned(source_id))),
    }
}

/// A path without Windows' verbatim prefix: `\\?\UNC\server\share` becomes
/// `\\server\share`, and `\\?\C:\a` becomes `C:\a`; any other path is
/// unchanged.
pub open spec fn explorer_path_spec(path: Seq<char>) -> Seq<char> {
    let unc = "\\\\?\\UNC\\"@;
    let verbatim = "\\\\?\\"@;
    if unc.len() <= path.len() && path.subrange(0, unc.len() as int) == unc {
        "\\\\"@ + path.skip(unc.len() as int)
    } else if verbatim.len() <= path.len() && path.subrange(0, verbatim.len() as int) == verbatim && {
        let rest = path.skip(verbatim.len() as int);
        rest.len() >= 2 && (rest[0] as u32) < 128 && rest[1] == ':'
    } {
        path.skip(verbatim.len() as int)
    } else {
        path
    }
}

/// The path as Explorer accepts it.
pub fn explorer_path(path: &str) -> (r: String)
    ensures
        r@ == explorer_path_spec(path@),
{
    let unc = "\\\\?\\UNC\\";
    let verbatim = "\\\\?\\";
    if starts_with_text(path, unc) {
        let skip = unc.unicode_len();
        let rest = suffix_from(path, skip);
        let mut out = owned("\\\\");
        append_text(&mut out, rest.as_str());
        assert(path@.subrange(skip as int, path@.len() as int) =~= path@.skip(skip as int));
        return out;
    }
    if starts_with_text(path, verbatim) {
        let skip = verbatim.unicode_len();
        let rest = suffix_from(path, skip);
        assert(path@.subrange(skip as int, path@.len() as int) =~= path@.skip(skip as int));
        let n = rest.as_str().unicode_len();
        if n >= 2 && (rest.as_str().get_char(0) as u32) < 128 && rest.as_str().get_char(1) == ':' {
            return rest;
        }
    }
    owned(path)
}

/// `/select,"<path>"`, the path always quoted (a Windows path cannot hold
/// `"`).
pub fn explorer_select_arg(path: &str) -> (r: String)
    ensures
        r@ == "/select,\""@ + explorer_path_spec(path@) + "\""@,
{
    let mut out = owned("/select,\"");
    let p = explorer_path(path);
    append_text(&mut out, p.as_str());
    append_text(&mut out, "\"");
    out
}

} // verus!
