//! How a typed folder path is read, and how a folder is named when the
//! catalog holds no name for it.

use crate::paths::{file_name_parts, path_components, PartView, ProfilePath};
use crate::text::{append_text, owned, suffix_from, trim_text, trimmed};
use vstd::prelude::*;
use vstd::string::*;

verus! {

broadcast use vstd::string::group_string_axioms;

/// A leading `~` stands for the home directory, when one is known.
pub open spec fn expanded_home(raw: Seq<char>, home: Option<Seq<char>>) -> Seq<char> {
    if raw.len() > 0 && raw[0] == '~' && home is Some {
        home->0 + raw.skip(1)
    } else {
        raw
    }
}

/// Replaces a leading `~` with `home`. With no home known, the text is left
/// as typed.
pub fn expand_home(raw: &str, home: Option<&str>) -> (r: String)
    ensures
        r@ == expanded_home(
            raw@,
            match home {
                Some(h) => Some(h@),
                None => None,
            },
        ),
{
    let n = raw.unicode_len();
    match home {
        Some(h) => {
            if n > 0 && raw.get_char(0) == '~' {
                let mut text = owned(h);
                let rest = suffix_from(raw, 1);
                append_text(&mut text, rest.as_str());
                assert(raw@.subrange(1, raw@.len() as int) =~= raw@.skip(1));
                text
            } else {
                owned(raw)
            }
        },
        None => owned(raw),
    }
}

/// The name a folder is shown by: the last component of its path, or, for
/// a path with no last name (a filesystem root), the whole path text.
pub open spec fn display_name_of(parts: Seq<PartView>, canonical_path: Seq<char>) -> Seq<char> {
    match file_name_parts(parts) {
        Some(name) => if name.len() > 0 {
            name
        } else {
            canonical_path
        },
        None => canonical_path,
    }
}

/// A folder's name from the components of its path and the path's text.
pub fn display_name_from(path: &ProfilePath, canonical_path: &str) -> (r: String)
    ensures
        r@ == display_name_of(path@, canonical_path@),
{
    match path.file_name() {
        Some(name) => {
            if name.as_str().unicode_len() > 0 {
                name.clone()
            } else {
                owned(canonical_path)
            }
        },
        None => owned(canonical_path),
    }
}

/// A folder's name as the user sees it when the catalog holds none: its
/// path read as this platform reads paths (see
/// [`path_components`](crate::paths::path_components)), then named by
/// [`display_name_from`].
pub fn folder_display_name(canonical_path: &str) -> (r: String)
    ensures
        exists|separator: char|
            r@ == #[trigger] display_name_of(path_components(separator, canonical_path@), canonical_path@),
{
    let path = ProfilePath::from_text(canonical_path);
    let r = display_name_from(&path, canonical_path);
    let ghost separator = choose|separator: char| path@ == path_components(separator, canonical_path@);
    assert(r@ == display_name_of(path_components(separator, canonical_path@), canonical_path@));
    r
}

/// Why a typed folder path cannot be added.
#[derive(Clone, Copy, Debug, PartialEq, Eq, Structural)]
pub enum SourcePathError {
    /// Nothing but white space was typed.
    EmptyPath,
}

/// The path to resolve for a typed folder: the text without surrounding
/// white space, with a leading `~` expanded; refused when nothing is left.
pub fn typed_source_path(raw: &str, home: Option<&str>) -> (r: Result<String, SourcePathError>)
    ensures
        match r {
            Ok(path) => trimmed(raw@).len() > 0 && path@ == expanded_home(
                trimmed(raw@),
                match home {
                    Some(h) => Some(h@),
                    None => None,
                },
            ),
            Err(e) => trimmed(raw@).len() == 0 && e == SourcePathError::EmptyPath,
        },
{
    let text = trim_text(raw);
    if text.as_str().unicode_len() == 0 {
        return Err(SourcePathError::EmptyPath);
    }
    Ok(expand_home(text.as_str(), home))
}

/// What a light check of a registered folder's path found.
#[derive(Clone, Copy, Debug, PartialEq, Eq, Structural)]
pub enum PathCheck {
    Active,
    FolderNotFound,
    PermissionProblem,
}

/// The status a folder is recorded with.
#[derive(Clone, Copy, Debug, PartialEq, Eq, Structural)]
pub enum SourceStatus {
    Active,
    Missing,
    PermissionDenied,
}

/// What a folder check or refresh records, and whether it then asks for a
/// scan: a reachable folder is active and scanned; a missing one or one
/// without permission is recorded so, and not scanned.
pub fn refresh_outcome(check: PathCheck) -> (r: (SourceStatus, bool))
    ensures
        r == (match check {
            PathCheck::Active => (SourceStatus::Active, true),
            PathCheck::FolderNotFound => (SourceStatus::Missing, false),
            PathCheck::PermissionProblem => (SourceStatus::PermissionDenied, false),
        }),
{
    match check {
        PathCheck::Active => (SourceStatus::Active, true),
        PathCheck::FolderNotFound => (SourceStatus::Missing, false),
        PathCheck::PermissionProblem => (SourceStatus::PermissionDenied, false),
    }
}

/// Why a folder was not added.
#[derive(Clone, Copy, Debug, PartialEq, Eq, Structural)]
pub enum AddRefusal {
    /// Nothing but white space was typed.
    EmptyPath,
    /// The path could not be resolved.
    CannotAccess,
    /// The path is not a folder.
    NotAFolder,
}

/// What adding a folder does.
#[derive(Debug)]
pub enum AddDecision {
    /// Nothing is added.
    Refused(AddRefusal),
    /// The resolved path is already registered, as this source: nothing is
    /// added, scanned or warned about.
    AlreadyRegistered(String),
    /// A new folder source, with the path as typed (expanded), its resolved
    /// path, and the name it is shown by.
    Add { original_path: String, canonical_path: String, display_name: String },
}

/// The view of an [`AddDecision`].
pub enum DecisionView {
    Refused(AddRefusal),
    AlreadyRegistered(Seq<char>),
    Add { original_path: Seq<char>, canonical_path: Seq<char>, display_name: Seq<char> },
}

impl View for AddDecision {
    type V = DecisionView;

    open spec fn view(&self) -> DecisionView {
        match self {
            AddDecision::Refused(r) => DecisionView::Refused(*r),
            AddDecision::AlreadyRegistered(id) => DecisionView::AlreadyRegistered(id@),
            AddDecision::Add { original_path, canonical_path, display_name } => DecisionView::Add {
                original_path: original_path@,
                canonical_path: canonical_path@,
                display_name: display_name@,
            },
        }
    }
}

/// Adding a folder, in order: a blank path is refused; a path that could
/// not be resolved is refused; a resolved path already registered adds
/// nothing; a path that is not a folder is refused; anything else is added
/// under its last name, the resolved path being read with the path syntax
/// that `separator` marks (see
/// [`path_components`](crate::paths::path_components)).
pub open spec fn add_decision_spec(
    typed: Result<Seq<char>, SourcePathError>,
    canonical: Option<Seq<char>>,
    registered: Option<Seq<char>>,
    is_dir: bool,
    separator: char,
) -> DecisionView {
    match typed {
        Err(_) => DecisionView::Refused(AddRefusal::EmptyPath),
        Ok(original) => match canonical {
            None => DecisionView::Refused(AddRefusal::CannotAccess),
            Some(c) => match registered {
                Some(id) => DecisionView::AlreadyRegistered(id),
                None => if !is_dir {
                    DecisionView::Refused(AddRefusal::NotAFolder)
                } else {
                    DecisionView::Add {
                        original_path: original,
                        canonical_path: c,
                        display_name: display_name_of(path_components(separator, c), c),
                    }
                },
            },
        },
    }
}

/// The typed path as text.
pub open spec fn typed_view(typed: Result<String, SourcePathError>) -> Result<Seq<char>, SourcePathError> {
    match typed {
        Ok(t) => Ok(t@),
        Err(e) => Err(e),
    }
}

/// Optional text as text.
pub open spec fn text_view(value: Option<String>) -> Option<Seq<char>> {
    match value {
        Some(t) => Some(t@),
        None => None,
    }
}

/// What adding a folder does, from the typed path (see
/// [`typed_source_path`]), its resolved path if it could be resolved, the
/// source already registered at that path if any, and whether it is a
/// folder (see [`add_decision_spec`]). The resolved path is read as this
/// platform reads paths.
pub fn add_decision(
    typed: Result<String, SourcePathError>,
    canonical: Option<String>,
    registered: Option<String>,
    is_dir: bool,
) -> (r: AddDecision)
    ensures
        exists|separator: char|
            r@ == #[trigger] add_decision_spec(
                typed_view(typed),
                text_view(canonical),
                text_view(registered),
                is_dir,
                separator,
            ),
{
    let ghost given = typed_view(typed);
    let ghost resolved = text_view(canonical);
    let ghost known = text_view(registered);
    let ghost none = '/';
    match typed {
        Err(_) => {
            let r = AddDecision::Refused(AddRefusal::EmptyPath);
            assert(r@ == add_decision_spec(given, resolved, known, is_dir, none));
            r
        },
        Ok(original) => match canonical {
            None => {
                let r = AddDecision::Refused(AddRefusal::CannotAccess);
                assert(r@ == add_decision_spec(given, resolved, known, is_dir, none));
                r
            },
            Some(c) => match registered {
                Some(id) => {
                    let r = AddDecision::AlreadyRegistered(id);
                    assert(r@ == add_decision_spec(given, resolved, known, is_dir, none));
                    r
                },
                None => if !is_dir {
                    let r = AddDecision::Refused(AddRefusal::NotAFolder);
                    assert(r@ == add_decision_spec(given, resolved, known, is_dir, none));
                    r
                } else {
                    let path = ProfilePath::from_text(c.as_str());
                    let display_name = display_name_from(&path, c.as_str());
                    let ghost separator = choose|separator: char| path@ == path_components(separator, c@);
                    let r = AddDecision::Add { original_path: original, canonical_path: c, display_name };
                    assert(r@ == add_decision_spec(given, resolved, known, is_dir, separator));
                    r
                },
            },
        },
    }
}

/// A typed path that resolves to an already registered path adds nothing,
/// whether or not it is a folder: the answer names the registered source.
pub proof fn law_a_registered_path_adds_nothing(
    original: Seq<char>,
    canonical: Seq<char>,
    id: Seq<char>,
    is_dir: bool,
    separator: char,
)
    ensures
        add_decision_spec(Ok(original), Some(canonical), Some(id), is_dir, separator)
            == DecisionView::AlreadyRegistered(id),
{
}

} // verus!
