//! Profile paths as sequences of components.
//!
//! A [`ProfilePath`] is the component list that `std::path::Path::components`
//! yields: an optional prefix (a Windows drive or share), an optional root,
//! then names, `.` and `..`. All path reasoning in this crate -- anchoring,
//! lexical normalization, whole-component containment -- is stated over that
//! list, so nothing here touches the filesystem.

use crate::text::{lowercase, owned, push_char, to_lowercase};
use std::path::{Component, Path, MAIN_SEPARATOR};
use vstd::prelude::*;
use vstd::string::*;

verus! {

broadcast use vstd::string::group_string_axioms;

/// One component of a path.
#[derive(Debug)]
pub enum PathPart {
    /// A Windows path prefix such as `C:` or `\\server\share`.
    Prefix(String),
    /// The root separator.
    RootDir,
    /// `.`
    CurDir,
    /// `..`
    ParentDir,
    /// A plain name.
    Normal(String),
}

/// The mathematical view of a [`PathPart`].
pub enum PartView {
    Prefix(Seq<char>),
    RootDir,
    CurDir,
    ParentDir,
    Normal(Seq<char>),
}

impl View for PathPart {
    type V = PartView;

    open spec fn view(&self) -> PartView {
        match self {
            PathPart::Prefix(s) => PartView::Prefix(s@),
            PathPart::RootDir => PartView::RootDir,
            PathPart::CurDir => PartView::CurDir,
            PathPart::ParentDir => PartView::ParentDir,
            PathPart::Normal(s) => PartView::Normal(s@),
        }
    }
}

/// A name that can stand as a `Normal` component: not empty, and neither
/// `.` nor `..`.
pub open spec fn component_name(name: Seq<char>) -> bool {
    &&& name.len() > 0
    &&& name != seq!['.']
    &&& name != seq!['.', '.']
}

/// A name that can be joined onto a path as exactly one component: a
/// component name with no `/` in it.
pub open spec fn valid_name(name: Seq<char>) -> bool {
    &&& component_name(name)
    &&& !name.contains('/')
}

/// The shape `Path::components` gives: a prefix only first, a root only
/// first or right after the prefix, and every name valid.
pub open spec fn wf_parts(parts: Seq<PartView>) -> bool {
    forall|i: int|
        0 <= i < parts.len() ==> match #[trigger] parts[i] {
            PartView::Prefix(s) => i == 0 && s.len() > 0,
            PartView::RootDir => i == 0 || (i == 1 && parts[0] is Prefix),
            PartView::CurDir => true,
            PartView::ParentDir => true,
            PartView::Normal(s) => component_name(s),
        }
}

/// A path is absolute when it starts at a root, directly or after its
/// prefix.
pub open spec fn is_absolute_parts(parts: Seq<PartView>) -> bool {
    &&& parts.len() > 0
    &&& (parts[0] is RootDir || (parts[0] is Prefix && parts.len() > 1 && parts[1] is RootDir))
}

/// `PathBuf::push` of `other` onto `base`: a path with a prefix replaces
/// `base`; a path with a root keeps only `base`'s prefix; any other path is
/// appended.
pub open spec fn join_parts(base: Seq<PartView>, other: Seq<PartView>) -> Seq<PartView> {
    if other.len() > 0 && other[0] is Prefix {
        other
    } else if other.len() > 0 && other[0] is RootDir {
        if base.len() > 0 && base[0] is Prefix {
            seq![base[0]] + other
        } else {
            other
        }
    } else {
        base + other
    }
}

/// One step of lexical normalization: `.` is dropped, `..` removes the
/// last name if there is one, anything else is kept.
pub open spec fn normalize_step(acc: Seq<PartView>, part: PartView) -> Seq<PartView> {
    match part {
        PartView::CurDir => acc,
        PartView::ParentDir => if acc.len() > 0 && acc.last() is Normal {
            acc.drop_last()
        } else {
            acc
        },
        _ => acc.push(part),
    }
}

/// Lexical normalization, left to right.
pub open spec fn normalized(parts: Seq<PartView>) -> Seq<PartView>
    decreases parts.len(),
{
    if parts.len() == 0 {
        Seq::empty()
    } else {
        normalize_step(normalized(parts.drop_last()), parts.last())
    }
}

/// The parts of one separator-free segment of POSIX path text.
pub open spec fn segment_parts(segment: Seq<char>) -> Seq<PartView> {
    if segment.len() == 0 || segment == seq!['.'] {
        Seq::empty()
    } else if segment == seq!['.', '.'] {
        seq![PartView::ParentDir]
    } else {
        seq![PartView::Normal(segment)]
    }
}

/// Splitting POSIX path text at `/`: the parts of the finished segments,
/// and the segment still open at the end.
pub open spec fn scan_text(text: Seq<char>) -> (Seq<PartView>, Seq<char>)
    decreases text.len(),
{
    if text.len() == 0 {
        (Seq::empty(), Seq::empty())
    } else {
        let (done, open) = scan_text(text.drop_last());
        if text.last() == '/' {
            (done + segment_parts(open), Seq::empty())
        } else {
            (done, open.push(text.last()))
        }
    }
}

/// The components of POSIX path text: a root when it starts with `/`, then
/// one part per segment that is neither empty nor `.`.
pub open spec fn posix_parts(text: Seq<char>) -> Seq<PartView> {
    let root = if text.len() > 0 && text[0] == '/' {
        seq![PartView::RootDir]
    } else {
        Seq::<PartView>::empty()
    };
    root + scan_text(text).0 + segment_parts(scan_text(text).1)
}

/// The text of one component, as `Component::as_os_str` gives it.
pub open spec fn part_text(part: PartView) -> Seq<char> {
    match part {
        PartView::Prefix(s) => s,
        PartView::RootDir => seq!['/'],
        PartView::CurDir => seq!['.'],
        PartView::ParentDir => seq!['.', '.'],
        PartView::Normal(s) => s,
    }
}

/// Two components are the same: equal, or, where names fold case, equal
/// once both texts are lowercased.
pub open spec fn parts_match(left: PartView, right: PartView, case_insensitive: bool) -> bool {
    if case_insensitive {
        lowercase(part_text(left)) == lowercase(part_text(right))
    } else {
        left == right
    }
}

/// `path` begins with every component of `prefix`, whole component by whole
/// component.
pub open spec fn starts_with_parts(
    path: Seq<PartView>,
    prefix: Seq<PartView>,
    case_insensitive: bool,
) -> bool {
    &&& prefix.len() <= path.len()
    &&& forall|i: int|
        0 <= i < prefix.len() ==> parts_match(path[i], prefix[i], case_insensitive)
}

/// Either path contains the other.
pub open spec fn overlap_parts(left: Seq<PartView>, right: Seq<PartView>, case_insensitive: bool) -> bool {
    starts_with_parts(left, right, case_insensitive) || starts_with_parts(right, left, case_insensitive)
}

/// The last component when it is a name.
pub open spec fn file_name_parts(parts: Seq<PartView>) -> Option<Seq<char>> {
    if parts.len() > 0 && parts.last() is Normal {
        Some(parts.last()->Normal_0)
    } else {
        None
    }
}

impl Clone for PathPart {
    fn clone(&self) -> (r: Self)
        ensures
            r@ == self@,
    {
        match self {
            PathPart::Prefix(s) => PathPart::Prefix(s.clone()),
            PathPart::RootDir => PathPart::RootDir,
            PathPart::CurDir => PathPart::CurDir,
            PathPart::ParentDir => PathPart::ParentDir,
            PathPart::Normal(s) => PathPart::Normal(s.clone()),
        }
    }
}

/// Whether two components are equal.
pub fn part_equals(left: &PathPart, right: &PathPart) -> (r: bool)
    ensures
        r == (left@ == right@),
{
    match (left, right) {
        (PathPart::Prefix(a), PathPart::Prefix(b)) => a.eq(b),
        (PathPart::RootDir, PathPart::RootDir) => true,
        (PathPart::CurDir, PathPart::CurDir) => true,
        (PathPart::ParentDir, PathPart::ParentDir) => true,
        (PathPart::Normal(a), PathPart::Normal(b)) => a.eq(b),
        _ => false,
    }
}

/// The text of a component.
pub fn part_text_of(part: &PathPart) -> (r: String)
    ensures
        r@ == part_text(part@),
{
    match part {
        PathPart::Prefix(s) => s.clone(),
        PathPart::Normal(s) => s.clone(),
        PathPart::RootDir => {
            let mut t = String::new();
            push_char(&mut t, '/');
            assert(t@ =~= seq!['/']);
            t
        },
        PathPart::CurDir => {
            let mut t = String::new();
            push_char(&mut t, '.');
            assert(t@ =~= seq!['.']);
            t
        },
        PathPart::ParentDir => {
            let mut t = String::new();
            push_char(&mut t, '.');
            push_char(&mut t, '.');
            assert(t@ =~= seq!['.', '.']);
            t
        },
    }
}

/// Whole-component equality; with `case_insensitive`, the two texts are
/// compared lowercased.
pub fn components_equal(left: &PathPart, right: &PathPart, case_insensitive: bool) -> (r: bool)
    ensures
        r == parts_match(left@, right@, case_insensitive),
{
    if !case_insensitive {
        return part_equals(left, right);
    }
    let l = part_text_of(left);
    let r = part_text_of(right);
    let ll = to_lowercase(l.as_str());
    let rl = to_lowercase(r.as_str());
    ll == rl
}

/// A path as a list of components.
#[derive(Debug)]
pub struct ProfilePath {
    parts: Vec<PathPart>,
}

impl View for ProfilePath {
    type V = Seq<PartView>;

    closed spec fn view(&self) -> Seq<PartView> {
        self.parts@.map_values(|p: PathPart| p@)
    }
}

/// The view of a list of components.
pub open spec fn parts_view(parts: Seq<PathPart>) -> Seq<PartView> {
    parts.map_values(|p: PathPart| p@)
}

proof fn lemma_push_view(parts: Seq<PathPart>, part: PathPart)
    ensures
        parts_view(parts.push(part)) == parts_view(parts).push(part@),
{
    assert(parts_view(parts.push(part)) =~= parts_view(parts).push(part@));
}

proof fn lemma_segment_parts_wf(segment: Seq<char>)
    requires
        !segment.contains('/'),
    ensures
        forall|i: int|
            0 <= i < segment_parts(segment).len() ==> (#[trigger] segment_parts(segment)[i] is ParentDir
                || (segment_parts(segment)[i] is Normal && valid_name(
                segment_parts(segment)[i]->Normal_0,
            ))),
{
}

proof fn lemma_scan_wf(text: Seq<char>)
    ensures
        !scan_text(text).1.contains('/'),
        forall|i: int|
            0 <= i < scan_text(text).0.len() ==> (#[trigger] scan_text(text).0[i] is ParentDir || (
            scan_text(text).0[i] is Normal && valid_name(scan_text(text).0[i]->Normal_0))),
    decreases text.len(),
{
    if text.len() > 0 {
        lemma_scan_wf(text.drop_last());
        let (done, open) = scan_text(text.drop_last());
        if text.last() == '/' {
            lemma_segment_parts_wf(open);
            let s = segment_parts(open);
            assert forall|i: int| 0 <= i < (done + s).len() implies (#[trigger] (done + s)[i] is ParentDir
                || ((done + s)[i] is Normal && valid_name((done + s)[i]->Normal_0))) by {
                if i < done.len() {
                    assert((done + s)[i] == done[i]);
                } else {
                    assert((done + s)[i] == s[i - done.len()]);
                }
            }
        } else {
            assert forall|j: int| 0 <= j < open.push(text.last()).len() implies open.push(
                text.last(),
            )[j] != '/' by {
                if j < open.len() {
                    assert(open.push(text.last())[j] == open[j]);
                }
            }
        }
    }
}

proof fn lemma_posix_parts_wf(text: Seq<char>)
    ensures
        wf_parts(posix_parts(text)),
{
    lemma_scan_wf(text);
    lemma_segment_parts_wf(scan_text(text).1);
    let root = if text.len() > 0 && text[0] == '/' {
        seq![PartView::RootDir]
    } else {
        Seq::<PartView>::empty()
    };
    let done = scan_text(text).0;
    let last = segment_parts(scan_text(text).1);
    let all = root + done + last;
    assert(posix_parts(text) == all);
    assert forall|i: int| 0 <= i < all.len() implies match #[trigger] all[i] {
        PartView::Prefix(s) => i == 0 && s.len() > 0,
        PartView::RootDir => i == 0 || (i == 1 && all[0] is Prefix),
        PartView::CurDir => true,
        PartView::ParentDir => true,
        PartView::Normal(s) => component_name(s),
    } by {
        if i < root.len() {
            assert(all[i] == root[i]);
        } else if i < root.len() + done.len() {
            assert(all[i] == done[i - root.len()]);
        } else {
            assert(all[i] == last[i - root.len() - done.len()]);
        }
    }
}

/// Pushes the part of a finished segment.
fn push_segment(parts: &mut Vec<PathPart>, segment: String)
    requires
        !segment@.contains('/'),
    ensures
        parts_view(final(parts)@) == parts_view(old(parts)@) + segment_parts(segment@),
{
    let n = segment.as_str().unicode_len();
    if n == 0 {
        assert(parts_view(parts@) =~= parts_view(parts@) + segment_parts(segment@));
        return;
    }
    let first = segment.as_str().get_char(0);
    if n == 1 && first == '.' {
        assert(segment@ =~= seq!['.']);
        assert(parts_view(parts@) =~= parts_view(parts@) + segment_parts(segment@));
        return;
    }
    if n == 2 && first == '.' && segment.as_str().get_char(1) == '.' {
        assert(segment@ =~= seq!['.', '.']);
        proof {
            lemma_push_view(parts@, PathPart::ParentDir);
        }
        parts.push(PathPart::ParentDir);
        assert(parts_view(parts@) =~= parts_view(old(parts)@) + segment_parts(segment@));
        return;
    }
    assert(segment@ != seq!['.']) by {
        if segment@ == seq!['.'] {
            assert(segment@.len() == 1 && segment@[0] == '.');
        }
    }
    assert(segment@ != seq!['.', '.']) by {
        if segment@ == seq!['.', '.'] {
            assert(segment@.len() == 2 && segment@[0] == '.' && segment@[1] == '.');
        }
    }
    let ghost seg = segment@;
    proof {
        lemma_push_view(parts@, PathPart::Normal(segment));
    }
    parts.push(PathPart::Normal(segment));
    assert(parts_view(parts@) =~= parts_view(old(parts)@) + segment_parts(seg));
}

/// The components that `std::path::Path::components` gives of `text` on a
/// platform whose main path separator (`std::path::MAIN_SEPARATOR`) is
/// `separator`: `/` on Unix, `\` on Windows. The separator tells which
/// path syntax applies (on Windows `\` separates too, and `C:` or
/// `\\server\share` begins a path); given the syntax, the components are
/// a function of the text alone, read without touching the filesystem.
pub uninterp spec fn path_components(separator: char, text: Seq<char>) -> Seq<PartView>;

/// Calls `std::path::Path::components` on `text`, each component taken with
/// its text, and gives the platform's `std::path::MAIN_SEPARATOR` with
/// them. Claimed: the components are [`path_components`] of the separator
/// and the text; and, as the documentation gives for every platform, they
/// have the shape of a path: a prefix only first, a root only first or
/// right after the prefix, and no name that is empty, `.` or `..`
/// (repeated separators are skipped, and `.` and `..` are components of
/// their own).
#[verifier::external_body]
fn platform_components(text: &str) -> (r: (char, Vec<PathPart>))
    ensures
        parts_view(r.1@) == path_components(r.0, text@),
        wf_parts(parts_view(r.1@)),
{
    let mut parts = Vec::new();
    for component in Path::new(text).components() {
        parts.push(match component {
            Component::Prefix(p) => PathPart::Prefix(p.as_os_str().to_string_lossy().into_owned()),
            Component::RootDir => PathPart::RootDir,
            Component::CurDir => PathPart::CurDir,
            Component::ParentDir => PathPart::ParentDir,
            Component::Normal(n) => PathPart::Normal(n.to_string_lossy().into_owned()),
        });
    }
    (MAIN_SEPARATOR, parts)
}

impl ProfilePath {
    #[verifier::type_invariant]
    spec fn well_formed(self) -> bool {
        wf_parts(self@)
    }

    /// The components, in order.
    pub fn parts(&self) -> (r: &Vec<PathPart>)
        ensures
            parts_view(r@) == self@,
            wf_parts(self@),
    {
        proof {
            use_type_invariant(self);
        }
        &self.parts
    }

    /// A path from components that have the shape `Path::components` gives,
    /// or `None` when they do not.
    pub fn from_parts(parts: Vec<PathPart>) -> (r: Option<ProfilePath>)
        ensures
            r is Some <==> wf_parts(parts_view(parts@)),
            r is Some ==> r->0@ == parts_view(parts@),
    {
        let n = parts.len();
        let mut i: usize = 0;
        while i < n
            invariant
                n == parts@.len(),
                i <= n,
                forall|j: int|
                    0 <= j < i ==> match #[trigger] parts_view(parts@)[j] {
                        PartView::Prefix(s) => j == 0 && s.len() > 0,
                        PartView::RootDir => j == 0 || (j == 1 && parts_view(parts@)[0] is Prefix),
                        PartView::CurDir => true,
                        PartView::ParentDir => true,
                        PartView::Normal(s) => component_name(s),
                    },
            decreases n - i,
        {
            let ghost v = parts_view(parts@);
            let ok = match &parts[i] {
                PathPart::Prefix(s) => i == 0 && s.as_str().unicode_len() > 0,
                PathPart::RootDir => i == 0 || (i == 1 && matches!(parts[0], PathPart::Prefix(_))),
                PathPart::CurDir => true,
                PathPart::ParentDir => true,
                PathPart::Normal(s) => is_component_name(s.as_str()),
            };
            if !ok {
                assert(!(match v[i as int] {
                    PartView::Prefix(s) => i == 0 && s.len() > 0,
                    PartView::RootDir => i == 0 || (i == 1 && v[0] is Prefix),
                    PartView::CurDir => true,
                    PartView::ParentDir => true,
                    PartView::Normal(s) => component_name(s),
                }));
                return None;
            }
            i = i + 1;
        }
        assert(wf_parts(parts_view(parts@)));
        let r = ProfilePath { parts };
        assert(r@ =~= parts_view(r.parts@));
        Some(r)
    }

    /// The components of path text as this platform reads it: those that
    /// [`path_components`] gives under the platform's main separator.
    pub fn from_text(text: &str) -> (r: ProfilePath)
        ensures
            exists|separator: char| r@ == #[trigger] path_components(separator, text@),
            wf_parts(r@),
    {
        let (separator, parts) = platform_components(text);
        let r = ProfilePath { parts };
        assert(r@ =~= parts_view(r.parts@));
        assert(r@ == path_components(separator, text@));
        r
    }

    /// The components of POSIX path text (`/` separates; empty and `.`
    /// segments name nothing).
    pub fn parse(text: &str) -> (r: ProfilePath)
        ensures
            r@ == posix_parts(text@),
    {
        let n = text.unicode_len();
        let mut parts: Vec<PathPart> = Vec::new();
        let ghost root = if text@.len() > 0 && text@[0] == '/' {
            seq![PartView::RootDir]
        } else {
            Seq::<PartView>::empty()
        };
        if n > 0 && text.get_char(0) == '/' {
            proof {
                lemma_push_view(parts@, PathPart::RootDir);
            }
            parts.push(PathPart::RootDir);
        }
        assert(parts_view(parts@) =~= root);
        let mut open = String::new();
        let mut i: usize = 0;
        while i < n
            invariant
                n == text@.len(),
                i <= n,
                root == (if text@.len() > 0 && text@[0] == '/' {
                    seq![PartView::RootDir]
                } else {
                    Seq::<PartView>::empty()
                }),
                parts_view(parts@) == root + scan_text(text@.subrange(0, i as int)).0,
                open@ == scan_text(text@.subrange(0, i as int)).1,
            decreases n - i,
        {
            let c = text.get_char(i);
            let ghost pre = text@.subrange(0, i as int);
            assert(text@.subrange(0, i + 1).drop_last() =~= pre);
            assert(text@.subrange(0, i + 1).last() == c);
            proof {
                lemma_scan_wf(pre);
            }
            if c == '/' {
                let segment = open;
                open = String::new();
                push_segment(&mut parts, segment);
                assert(parts_view(parts@) =~= root + scan_text(text@.subrange(0, i + 1)).0);
            } else {
                push_char(&mut open, c);
            }
            i = i + 1;
        }
        assert(text@.subrange(0, n as int) =~= text@);
        proof {
            lemma_scan_wf(text@);
            lemma_posix_parts_wf(text@);
        }
        push_segment(&mut parts, open);
        assert(parts_view(parts@) =~= posix_parts(text@));
        ProfilePath { parts }
    }

    /// Whether the path starts at a root.
    pub fn is_absolute(&self) -> (r: bool)
        ensures
            r == is_absolute_parts(self@),
    {
        let n = self.parts.len();
        if n == 0 {
            return false;
        }
        match &self.parts[0] {
            PathPart::RootDir => true,
            PathPart::Prefix(_) => n > 1 && matches!(self.parts[1], PathPart::RootDir),
            _ => false,
        }
    }

    /// Whether two paths have the same components.
    pub fn equals(&self, other: &ProfilePath) -> (r: bool)
        ensures
            r == (self@ == other@),
    {
        let n = self.parts.len();
        if n != other.parts.len() {
            return false;
        }
        let mut i: usize = 0;
        while i < n
            invariant
                n == self@.len(),
                n == other@.len(),
                i <= n,
                forall|j: int| 0 <= j < i ==> self@[j] == other@[j],
            decreases n - i,
        {
            if !part_equals(&self.parts[i], &other.parts[i]) {
                assert(self@[i as int] != other@[i as int]);
                return false;
            }
            i = i + 1;
        }
        assert(self@ =~= other@);
        true
    }

    /// An independent copy.
    pub fn duplicate(&self) -> (r: ProfilePath)
        ensures
            r@ == self@,
    {
        proof {
            use_type_invariant(self);
        }
        let mut parts: Vec<PathPart> = Vec::new();
        let n = self.parts.len();
        let mut i: usize = 0;
        while i < n
            invariant
                n == self@.len(),
                i <= n,
                parts_view(parts@) == self@.subrange(0, i as int),
            decreases n - i,
        {
            let p = self.parts[i].clone();
            proof {
                lemma_push_view(parts@, p);
            }
            parts.push(p);
            assert(self@.subrange(0, i + 1) =~= self@.subrange(0, i as int).push(self@[i as int]));
            i = i + 1;
        }
        assert(self@.subrange(0, n as int) =~= self@);
        ProfilePath { parts }
    }

    /// `PathBuf::join`: the other path pushed onto this one.
    pub fn join(&self, other: &ProfilePath) -> (r: ProfilePath)
        ensures
            r@ == join_parts(self@, other@),
    {
        proof {
            use_type_invariant(self);
            use_type_invariant(other);
        }
        let on = other.parts.len();
        if on > 0 && matches!(other.parts[0], PathPart::Prefix(_)) {
            return other.duplicate();
        }
        let mut parts: Vec<PathPart> = Vec::new();
        let ghost head: Seq<PartView>;
        if on > 0 && matches!(other.parts[0], PathPart::RootDir) {
            if self.parts.len() > 0 && matches!(self.parts[0], PathPart::Prefix(_)) {
                let p = self.parts[0].clone();
                proof {
                    lemma_push_view(parts@, p);
                }
                parts.push(p);
                proof {
                    head = seq![self@[0]];
                }
                assert(parts_view(parts@) =~= head);
            } else {
                proof {
                    head = Seq::empty();
                }
                assert(parts_view(parts@) =~= head);
            }
        } else {
            let n = self.parts.len();
            let mut i: usize = 0;
            while i < n
                invariant
                    n == self@.len(),
                    i <= n,
                    parts_view(parts@) == self@.subrange(0, i as int),
                decreases n - i,
            {
                let p = self.parts[i].clone();
                proof {
                    lemma_push_view(parts@, p);
                }
                parts.push(p);
                assert(self@.subrange(0, i + 1) =~= self@.subrange(0, i as int).push(
                    self@[i as int],
                ));
                i = i + 1;
            }
            assert(self@.subrange(0, n as int) =~= self@);
            proof {
                head = self@;
            }
        }
        let mut j: usize = 0;
        while j < on
            invariant
                on == other@.len(),
                j <= on,
                parts_view(parts@) == head + other@.subrange(0, j as int),
            decreases on - j,
        {
            let p = other.parts[j].clone();
            proof {
                lemma_push_view(parts@, p);
            }
            parts.push(p);
            assert(head + other@.subrange(0, j + 1) =~= (head + other@.subrange(
                0,
                j as int,
            )).push(other@[j as int]));
            j = j + 1;
        }
        assert(other@.subrange(0, on as int) =~= other@);
        let ghost joined = head + other@;
        assert(joined =~= join_parts(self@, other@));
        proof {
            lemma_join_wf(self@, other@);
        }
        ProfilePath { parts }
    }

    /// This path with one more name at its end.
    pub fn join_name(&self, name: &str) -> (r: ProfilePath)
        requires
            valid_name(name@),
        ensures
            r@ == self@.push(PartView::Normal(name@)),
    {
        proof {
            use_type_invariant(self);
        }
        let mut parts: Vec<PathPart> = Vec::new();
        let n = self.parts.len();
        let mut i: usize = 0;
        while i < n
            invariant
                n == self@.len(),
                i <= n,
                parts_view(parts@) == self@.subrange(0, i as int),
            decreases n - i,
        {
            let p = self.parts[i].clone();
            proof {
                lemma_push_view(parts@, p);
            }
            parts.push(p);
            assert(self@.subrange(0, i + 1) =~= self@.subrange(0, i as int).push(self@[i as int]));
            i = i + 1;
        }
        assert(self@.subrange(0, n as int) =~= self@);
        let part = PathPart::Normal(owned(name));
        proof {
            lemma_push_view(parts@, part);
        }
        parts.push(part);
        assert(wf_parts(parts_view(parts@))) by {
            let v = parts_view(parts@);
            assert forall|k: int| 0 <= k < v.len() implies match #[trigger] v[k] {
                PartView::Prefix(s) => k == 0 && s.len() > 0,
                PartView::RootDir => k == 0 || (k == 1 && v[0] is Prefix),
                PartView::CurDir => true,
                PartView::ParentDir => true,
                PartView::Normal(s) => component_name(s),
            } by {
                if k < n {
                    assert(v[k] == self@[k]);
                }
            }
        }
        ProfilePath { parts }
    }

    /// The first `len` components, which keep the shape of a path.
    pub fn prefix(&self, len: usize) -> (r: ProfilePath)
        requires
            len <= self@.len(),
        ensures
            r@ == self@.subrange(0, len as int),
    {
        proof {
            use_type_invariant(self);
        }
        let mut parts: Vec<PathPart> = Vec::new();
        let mut i: usize = 0;
        while i < len
            invariant
                len <= self@.len(),
                i <= len,
                parts_view(parts@) == self@.subrange(0, i as int),
            decreases len - i,
        {
            let p = self.parts[i].clone();
            proof {
                lemma_push_view(parts@, p);
            }
            parts.push(p);
            assert(self@.subrange(0, i + 1) =~= self@.subrange(0, i as int).push(self@[i as int]));
            i = i + 1;
        }
        assert(wf_parts(parts_view(parts@))) by {
            let v = parts_view(parts@);
            assert forall|k: int| 0 <= k < v.len() implies match #[trigger] v[k] {
                PartView::Prefix(s) => k == 0 && s.len() > 0,
                PartView::RootDir => k == 0 || (k == 1 && v[0] is Prefix),
                PartView::CurDir => true,
                PartView::ParentDir => true,
                PartView::Normal(s) => component_name(s),
            } by {
                assert(v[k] == self@[k]);
                if k == 1 {
                    assert(v[0] == self@[0]);
                }
            }
        }
        ProfilePath { parts }
    }

    /// The last component when it is a name (`Path::file_name`).
    pub fn file_name(&self) -> (r: Option<&String>)
        ensures
            match r {
                Some(s) => file_name_parts(self@) == Some(s@),
                None => file_name_parts(self@) is None,
            },
    {
        let n = self.parts.len();
        if n == 0 {
            return None;
        }
        match &self.parts[n - 1] {
            PathPart::Normal(s) => Some(s),
            _ => None,
        }
    }
}

impl PartialEq for ProfilePath {
    fn eq(&self, other: &Self) -> (r: bool) {
        self.equals(other)
    }
}

impl vstd::std_specs::cmp::PartialEqSpecImpl for ProfilePath {
    open spec fn obeys_eq_spec() -> bool {
        true
    }

    open spec fn eq_spec(&self, other: &Self) -> bool {
        self@ == other@
    }
}

impl Eq for ProfilePath {

}

/// Joining two well-formed paths gives a well-formed path.
pub proof fn lemma_join_wf(base: Seq<PartView>, other: Seq<PartView>)
    requires
        wf_parts(base),
        wf_parts(other),
    ensures
        wf_parts(join_parts(base, other)),
{
    let j = join_parts(base, other);
    if other.len() > 0 && other[0] is Prefix {
    } else if other.len() > 0 && other[0] is RootDir {
        if base.len() > 0 && base[0] is Prefix {
            assert forall|k: int| 0 <= k < j.len() implies match #[trigger] j[k] {
                PartView::Prefix(s) => k == 0 && s.len() > 0,
                PartView::RootDir => k == 0 || (k == 1 && j[0] is Prefix),
                PartView::CurDir => true,
                PartView::ParentDir => true,
                PartView::Normal(s) => component_name(s),
            } by {
                if k == 0 {
                    assert(j[0] == base[0]);
                } else {
                    assert(j[k] == other[k - 1]);
                }
            }
        }
    } else {
        assert forall|k: int| 0 <= k < j.len() implies match #[trigger] j[k] {
            PartView::Prefix(s) => k == 0 && s.len() > 0,
            PartView::RootDir => k == 0 || (k == 1 && j[0] is Prefix),
            PartView::CurDir => true,
            PartView::ParentDir => true,
            PartView::Normal(s) => component_name(s),
        } by {
            if k < base.len() {
                assert(j[k] == base[k]);
                if base.len() > 0 {
                    assert(j[0] == base[0]);
                }
            } else {
                assert(j[k] == other[k - base.len()]);
                let o = other[k - base.len()];
                if o is Prefix || o is RootDir {
                    // a prefix or root stands only at the head of `other`
                    assert(false);
                }
            }
        }
    }
}

/// Whether text can stand as a `Normal` component.
pub fn is_component_name(name: &str) -> (r: bool)
    ensures
        r == component_name(name@),
{
    let n = name.unicode_len();
    if n == 0 {
        return false;
    }
    let first = name.get_char(0);
    if n == 1 && first == '.' {
        assert(name@ =~= seq!['.']);
        return false;
    }
    if n == 2 && first == '.' && name.get_char(1) == '.' {
        assert(name@ =~= seq!['.', '.']);
        return false;
    }
    assert(name@ != seq!['.']) by {
        if name@ == seq!['.'] {
            assert(name@.len() == 1 && name@[0] == '.');
        }
    }
    assert(name@ != seq!['.', '.']) by {
        if name@ == seq!['.', '.'] {
            assert(name@.len() == 2 && name@[0] == '.' && name@[1] == '.');
        }
    }
    true
}

/// Lexically normalizes an absolute path: `.` is dropped and `..` removes
/// the preceding name. `None` when the path is not absolute.
pub fn normalize_absolute(path: &ProfilePath) -> (r: Option<ProfilePath>)
    ensures
        match r {
            Some(p) => is_absolute_parts(path@) && p@ == normalized(path@),
            None => !is_absolute_parts(path@),
        },
{
    proof {
        use_type_invariant(path);
    }
    if !path.is_absolute() {
        return None;
    }
    let n = path.parts.len();
    let mut out: Vec<PathPart> = Vec::new();
    let mut i: usize = 0;
    while i < n
        invariant
            n == path@.len(),
            i <= n,
            wf_parts(path@),
            parts_view(out@) == normalized(path@.subrange(0, i as int)),
            normalized_shape(parts_view(out@), path@),
        decreases n - i,
    {
        let ghost pre = path@.subrange(0, i as int);
        assert(path@.subrange(0, i + 1).drop_last() =~= pre);
        assert(path@.subrange(0, i + 1).last() == path@[i as int]);
        match &path.parts[i] {
            PathPart::CurDir => {},
            PathPart::ParentDir => {
                let m = out.len();
                if m > 0 && matches!(out[m - 1], PathPart::Normal(_)) {
                    let ghost before = parts_view(out@);
                    out.pop();
                    assert(parts_view(out@) =~= before.drop_last());
                }
            },
            _ => {
                let p = path.parts[i].clone();
                proof {
                    lemma_push_view(out@, p);
                    lemma_normalized_shape_push(parts_view(out@), path@, i as int);
                }
                out.push(p);
            },
        }
        i = i + 1;
    }
    assert(path@.subrange(0, n as int) =~= path@);
    proof {
        lemma_normalized_shape_wf(parts_view(out@), path@);
    }
    Some(ProfilePath { parts: out })
}

/// The shape of a normalization in progress of `path`: only names after
/// `path`'s own head of prefix and root.
pub open spec fn normalized_shape(acc: Seq<PartView>, path: Seq<PartView>) -> bool {
    forall|k: int|
        0 <= k < acc.len() ==> match #[trigger] acc[k] {
            PartView::Prefix(s) => k == 0 && s.len() > 0,
            PartView::RootDir => k == 0 || (k == 1 && acc[0] is Prefix),
            PartView::CurDir => false,
            PartView::ParentDir => false,
            PartView::Normal(s) => component_name(s),
        }
}

proof fn lemma_normalized_shape_push(acc: Seq<PartView>, path: Seq<PartView>, i: int)
    requires
        wf_parts(path),
        0 <= i < path.len(),
        normalized_shape(acc, path),
        acc == normalized(path.subrange(0, i)),
        !(path[i] is CurDir),
        !(path[i] is ParentDir),
    ensures
        normalized_shape(acc.push(path[i]), path),
{
    let a = acc.push(path[i]);
    lemma_normalized_len(path.subrange(0, i));
    assert forall|k: int| 0 <= k < a.len() implies match #[trigger] a[k] {
        PartView::Prefix(s) => k == 0 && s.len() > 0,
        PartView::RootDir => k == 0 || (k == 1 && a[0] is Prefix),
        PartView::CurDir => false,
        PartView::ParentDir => false,
        PartView::Normal(s) => component_name(s),
    } by {
        if k < acc.len() {
            assert(a[k] == acc[k]);
        } else {
            assert(a[k] == path[i]);
            if path[i] is RootDir && i == 1 {
                lemma_normalized_head(path, 1);
                assert(a[0] == path[0]);
            }
        }
    }
}

proof fn lemma_normalized_shape_wf(acc: Seq<PartView>, path: Seq<PartView>)
    requires
        normalized_shape(acc, path),
    ensures
        wf_parts(acc),
{
}

pub(crate) proof fn lemma_normalized_len(parts: Seq<PartView>)
    ensures
        normalized(parts).len() <= parts.len(),
    decreases parts.len(),
{
    if parts.len() > 0 {
        lemma_normalized_len(parts.drop_last());
    }
}

pub(crate) proof fn lemma_normalized_head(path: Seq<PartView>, i: int)
    requires
        wf_parts(path),
        i == 1,
        1 < path.len(),
        path[1] is RootDir,
    ensures
        normalized(path.subrange(0, 1)) == seq![path[0]],
{
    let s = path.subrange(0, 1);
    assert(s.drop_last() =~= Seq::<PartView>::empty());
    assert(path[0] is Prefix);
    assert(normalized(s.drop_last()) == Seq::<PartView>::empty());
    assert(normalized(s) =~= seq![path[0]]);
}

/// Whether `path` begins with all of `prefix`'s components.
pub fn components_start_with(path: &ProfilePath, prefix: &ProfilePath, case_insensitive: bool) -> (r:
    bool)
    ensures
        r == starts_with_parts(path@, prefix@, case_insensitive),
{
    let m = prefix.parts.len();
    if m > path.parts.len() {
        return false;
    }
    let mut i: usize = 0;
    while i < m
        invariant
            m == prefix@.len(),
            m <= path@.len(),
            i <= m,
            forall|j: int| 0 <= j < i ==> parts_match(path@[j], prefix@[j], case_insensitive),
        decreases m - i,
    {
        if !components_equal(&path.parts[i], &prefix.parts[i], case_insensitive) {
            assert(!parts_match(path@[i as int], prefix@[i as int], case_insensitive));
            return false;
        }
        i = i + 1;
    }
    true
}

/// Whether either path contains the other, with the given case rule.
pub fn paths_overlap_with_case(left: &ProfilePath, right: &ProfilePath, case_insensitive: bool) -> (r:
    bool)
    ensures
        r == overlap_parts(left@, right@, case_insensitive),
{
    components_start_with(left, right, case_insensitive) || components_start_with(
        right,
        left,
        case_insensitive,
    )
}

/// Whether either path contains the other, whole component by whole
/// component. `case_insensitive` is the platform's rule for names (true on
/// Windows and macOS).
pub fn paths_overlap(left: &ProfilePath, right: &ProfilePath, case_insensitive: bool) -> (r: bool)
    ensures
        r == overlap_parts(left@, right@, case_insensitive),
{
    paths_overlap_with_case(left, right, case_insensitive)
}

/// Whole-component containment of `path` in `prefix`, with the platform's
/// rule for names.
pub fn path_is_within(path: &ProfilePath, prefix: &ProfilePath, case_insensitive: bool) -> (r: bool)
    ensures
        r == starts_with_parts(path@, prefix@, case_insensitive),
{
    components_start_with(path, prefix, case_insensitive)
}

/// A path holds no `.` or `..` component.
pub open spec fn no_dots(parts: Seq<PartView>) -> bool {
    forall|i: int| 0 <= i < parts.len() ==> !(#[trigger] parts[i] is CurDir) && !(parts[i] is ParentDir)
}

/// The head an absolute path starts with: its root, or its prefix and root.
pub open spec fn head_len(parts: Seq<PartView>) -> int {
    if parts.len() > 0 && parts[0] is RootDir {
        1
    } else {
        2
    }
}

/// Normalization leaves no `.` and no `..`.
pub proof fn law_normalized_has_no_dots(parts: Seq<PartView>)
    ensures
        no_dots(normalized(parts)),
    decreases parts.len(),
{
    if parts.len() > 0 {
        law_normalized_has_no_dots(parts.drop_last());
        let acc = normalized(parts.drop_last());
        let r = normalized(parts);
        assert forall|i: int| 0 <= i < r.len() implies !(#[trigger] r[i] is CurDir) && !(
        r[i] is ParentDir) by {
            match parts.last() {
                PartView::CurDir => {},
                PartView::ParentDir => {
                    if acc.len() > 0 && acc.last() is Normal {
                        assert(r[i] == acc[i]);
                    }
                },
                _ => {
                    if i < acc.len() {
                        assert(r[i] == acc[i]);
                    }
                },
            }
        }
    }
}

/// A path with no `.` or `..` is its own normalization.
pub proof fn law_normalization_keeps_a_normal_path(parts: Seq<PartView>)
    requires
        no_dots(parts),
    ensures
        normalized(parts) == parts,
    decreases parts.len(),
{
    if parts.len() > 0 {
        let init = parts.drop_last();
        assert(no_dots(init)) by {
            assert forall|i: int| 0 <= i < init.len() implies !(#[trigger] init[i] is CurDir) && !(
            init[i] is ParentDir) by {
                assert(init[i] == parts[i]);
            }
        }
        law_normalization_keeps_a_normal_path(init);
        assert(!(parts.last() is CurDir) && !(parts.last() is ParentDir)) by {
            assert(parts.last() == parts[parts.len() - 1]);
        }
        assert(init.push(parts.last()) =~= parts);
    }
}

/// Normalizing twice is normalizing once.
pub proof fn law_normalize_is_idempotent(parts: Seq<PartView>)
    ensures
        normalized(normalized(parts)) == normalized(parts),
{
    law_normalized_has_no_dots(parts);
    law_normalization_keeps_a_normal_path(normalized(parts));
}

proof fn lemma_head_kept(parts: Seq<PartView>, m: int)
    requires
        wf_parts(parts),
        is_absolute_parts(parts),
        head_len(parts) <= m <= parts.len(),
    ensures
        normalized(parts.subrange(0, m)).len() >= head_len(parts),
        normalized(parts.subrange(0, m)).subrange(0, head_len(parts)) == parts.subrange(
            0,
            head_len(parts),
        ),
    decreases m,
{
    let h = head_len(parts);
    let t = parts.subrange(0, m);
    assert(t.drop_last() =~= parts.subrange(0, m - 1));
    if m == h {
        if h == 1 {
            assert(t.drop_last() =~= Seq::<PartView>::empty());
            assert(t.last() == parts[0]);
            assert(normalized(t.drop_last()) == Seq::<PartView>::empty());
            assert(parts[0] is RootDir);
            assert(normalized(t) =~= seq![parts[0]]);
        } else {
            let t1 = parts.subrange(0, 1);
            assert(t1.drop_last() =~= Seq::<PartView>::empty());
            assert(t1.last() == parts[0]);
            assert(normalized(t1.drop_last()) == Seq::<PartView>::empty());
            assert(normalized(t1) =~= seq![parts[0]]);
            assert(parts[1] is RootDir);
            assert(normalized(t) =~= seq![parts[0], parts[1]]);
        }
        assert(normalized(t).subrange(0, h) =~= parts.subrange(0, h));
    } else {
        lemma_head_kept(parts, m - 1);
        let acc = normalized(parts.subrange(0, m - 1));
        let part = parts[m - 1];
        assert(t.last() == part);
        assert(!(part is Prefix));
        assert(!(part is RootDir)) by {
            if part is RootDir {
                assert(m - 1 == 0 || (m - 1 == 1 && parts[0] is Prefix));
            }
        }
        let r = normalized(t);
        match part {
            PartView::CurDir => {},
            PartView::ParentDir => {
                if acc.len() > 0 && acc.last() is Normal {
                    assert(acc.len() > h) by {
                        if acc.len() == h {
                            assert(acc.last() == acc.subrange(0, h)[h - 1]);
                        }
                    }
                    assert(r.subrange(0, h) =~= acc.subrange(0, h));
                }
            },
            _ => {
                assert(r.subrange(0, h) =~= acc.subrange(0, h));
            },
        }
    }
}

/// Normalizing an absolute path keeps it absolute: `..` never climbs above
/// the root.
pub proof fn law_normalized_stays_absolute(parts: Seq<PartView>)
    requires
        wf_parts(parts),
        is_absolute_parts(parts),
    ensures
        is_absolute_parts(normalized(parts)),
        normalized(parts).subrange(0, head_len(parts)) == parts.subrange(0, head_len(parts)),
{
    lemma_head_kept(parts, parts.len() as int);
    assert(parts.subrange(0, parts.len() as int) =~= parts);
    let h = head_len(parts);
    let r = normalized(parts);
    assert(r[0] == r.subrange(0, h)[0]);
    if h == 2 {
        assert(r[1] == r.subrange(0, h)[1]);
    }
}

/// Parsed POSIX text always has the shape of a path.
pub proof fn law_parsed_text_is_well_formed(text: Seq<char>)
    ensures
        wf_parts(posix_parts(text)),
{
    lemma_posix_parts_wf(text);
}

/// Either path containing the other is symmetric.
pub proof fn law_overlap_is_symmetric(left: Seq<PartView>, right: Seq<PartView>, case_insensitive: bool)
    ensures
        overlap_parts(left, right, case_insensitive) == overlap_parts(right, left, case_insensitive),
{
}

/// Every path is within itself.
pub proof fn law_within_is_reflexive(path: Seq<PartView>, case_insensitive: bool)
    ensures
        starts_with_parts(path, path, case_insensitive),
{
}

/// Containment is transitive.
pub proof fn law_within_is_transitive(
    a: Seq<PartView>,
    b: Seq<PartView>,
    c: Seq<PartView>,
    case_insensitive: bool,
)
    requires
        starts_with_parts(a, b, case_insensitive),
        starts_with_parts(b, c, case_insensitive),
    ensures
        starts_with_parts(a, c, case_insensitive),
{
    assert forall|i: int| 0 <= i < c.len() implies parts_match(a[i], c[i], case_insensitive) by {
        assert(parts_match(a[i], b[i], case_insensitive));
        assert(parts_match(b[i], c[i], case_insensitive));
    }
}

/// Exact containment is also containment where names fold case, so the
/// case-folding check refuses at least what the exact one refuses.
pub proof fn law_case_folding_only_adds_overlaps(left: Seq<PartView>, right: Seq<PartView>)
    requires
        overlap_parts(left, right, false),
    ensures
        overlap_parts(left, right, true),
{
    if starts_with_parts(left, right, false) {
        assert forall|i: int| 0 <= i < right.len() implies parts_match(left[i], right[i], true) by {
            assert(left[i] == right[i]);
        }
    } else {
        assert forall|i: int| 0 <= i < left.len() implies parts_match(right[i], left[i], true) by {
            assert(right[i] == left[i]);
        }
    }
}

} // verus!
