//! Whether a portable profile is physically separate from the standard one.
//!
//! Two paths may name the same place through different spellings: a bind
//! mount, a link, a differently cased name. Each path is located by its
//! nearest existing ancestor -- that ancestor's resolved path and its
//! filesystem identity -- plus the names below it that do not exist yet.
//! The portable profile is refused if any of its locations overlaps a
//! standard one by resolved path, or shares an identity with it and
//! overlaps below it.

use crate::paths::{
    component_name, join_parts, overlap_parts, parts_view, paths_overlap, valid_name, PartView, PathPart, ProfilePath,
    wf_parts,
};
use crate::runtime_context::{ContextView, RuntimeContext, CATALOG_FILE_NAME, SETTINGS_FILE};
use vstd::prelude::*;
use vstd::string::*;

verus! {

broadcast use vstd::string::group_string_axioms;

/// The identity of a filesystem object: its device and its index there.
#[derive(Clone, Copy, Debug, PartialEq, Eq, Structural)]
pub struct FileIdentity {
    pub device: u64,
    pub index: u64,
}

/// Where a path physically is.
#[derive(Debug)]
pub struct PhysicalLocation {
    /// The identity of the nearest existing ancestor.
    pub identity: FileIdentity,
    /// The names below that ancestor that do not exist yet.
    pub missing_suffix: ProfilePath,
    /// The resolved ancestor with the missing names appended.
    pub resolved_path: ProfilePath,
}

/// The view of a [`PhysicalLocation`].
pub struct LocationView {
    pub identity: FileIdentity,
    pub missing_suffix: Seq<PartView>,
    pub resolved_path: Seq<PartView>,
}

impl View for PhysicalLocation {
    type V = LocationView;

    open spec fn view(&self) -> LocationView {
        LocationView {
            identity: self.identity,
            missing_suffix: self.missing_suffix@,
            resolved_path: self.resolved_path@,
        }
    }
}

/// The views of a list of locations.
pub open spec fn locations_view(locations: Seq<PhysicalLocation>) -> Seq<LocationView> {
    locations.map_values(|l: PhysicalLocation| l@)
}

/// Two locations are the same place or one holds the other.
pub open spec fn locations_alias(a: LocationView, b: LocationView, case_insensitive: bool) -> bool {
    overlap_parts(a.resolved_path, b.resolved_path, case_insensitive) || (a.identity == b.identity
        && overlap_parts(a.missing_suffix, b.missing_suffix, case_insensitive))
}

/// No portable location aliases any standard location.
pub open spec fn physically_separate_spec(
    portable: Seq<LocationView>,
    standard: Seq<LocationView>,
    case_insensitive: bool,
) -> bool {
    forall|i: int, j: int|
        0 <= i < portable.len() && 0 <= j < standard.len() ==> !locations_alias(
            #[trigger] portable[i],
            #[trigger] standard[j],
            case_insensitive,
        )
}

fn locations_alias_exec(a: &PhysicalLocation, b: &PhysicalLocation, case_insensitive: bool) -> (r:
    bool)
    ensures
        r == locations_alias(a@, b@, case_insensitive),
{
    paths_overlap(&a.resolved_path, &b.resolved_path, case_insensitive) || (a.identity == b.identity
        && paths_overlap(&a.missing_suffix, &b.missing_suffix, case_insensitive))
}

/// Whether the portable locations are all apart from the standard ones.
pub fn physically_separate(
    portable: &Vec<PhysicalLocation>,
    standard: &Vec<PhysicalLocation>,
    case_insensitive: bool,
) -> (r: bool)
    ensures
        r == physically_separate_spec(
            locations_view(portable@),
            locations_view(standard@),
            case_insensitive,
        ),
{
    let ghost p = locations_view(portable@);
    let ghost s = locations_view(standard@);
    let n = portable.len();
    let m = standard.len();
    let mut i: usize = 0;
    while i < n
        invariant
            n == portable@.len(),
            m == standard@.len(),
            p == locations_view(portable@),
            s == locations_view(standard@),
            i <= n,
            forall|a: int, b: int|
                0 <= a < i && 0 <= b < m ==> !locations_alias(#[trigger] p[a], #[trigger] s[b], case_insensitive),
        decreases n - i,
    {
        let mut j: usize = 0;
        while j < m
            invariant
                n == portable@.len(),
                m == standard@.len(),
                p == locations_view(portable@),
                s == locations_view(standard@),
                i < n,
                j <= m,
                forall|a: int, b: int|
                    0 <= a < i && 0 <= b < m ==> !locations_alias(#[trigger] p[a], #[trigger] s[b], case_insensitive),
                forall|b: int| 0 <= b < j ==> !locations_alias(p[i as int], #[trigger] s[b], case_insensitive),
            decreases m - j,
        {
            if locations_alias_exec(&portable[i], &standard[j], case_insensitive) {
                assert(locations_alias(p[i as int], s[j as int], case_insensitive));
                return false;
            }
            j = j + 1;
        }
        i = i + 1;
    }
    true
}

/// The paths whose physical locations are compared: the portable profile's
/// data directory, catalog and settings file, against the standard settings
/// directory and file and, when the platform has one, the standard data
/// directory and catalog.
pub open spec fn separation_candidates_spec(
    context: ContextView,
    standard_data_dir: Option<Seq<PartView>>,
    standard_settings_dir: Seq<PartView>,
) -> (Seq<Seq<PartView>>, Seq<Seq<PartView>>) {
    let portable = seq![context.data_dir, context.catalog_file, context.settings_file];
    let settings = seq![
        standard_settings_dir,
        standard_settings_dir.push(PartView::Normal(SETTINGS_FILE@)),
    ];
    let standard = match standard_data_dir {
        Some(d) => settings + seq![d, d.push(PartView::Normal(CATALOG_FILE_NAME@))],
        None => settings,
    };
    (portable, standard)
}

/// The views of a list of paths.
pub open spec fn paths_view(paths: Seq<ProfilePath>) -> Seq<Seq<PartView>> {
    paths.map_values(|p: ProfilePath| p@)
}

proof fn lemma_candidate_names()
    ensures
        valid_name(SETTINGS_FILE@),
        valid_name(CATALOG_FILE_NAME@),
{
    reveal_strlit("settings.json");
    reveal_strlit("catalog.sqlite3");
    assert(!SETTINGS_FILE@.contains('/'));
    assert(!CATALOG_FILE_NAME@.contains('/'));
    assert(SETTINGS_FILE@.len() > 2);
    assert(CATALOG_FILE_NAME@.len() > 2);
}

/// The portable and the standard paths to locate (see
/// [`separation_candidates_spec`]).
pub fn separation_candidates(
    context: &RuntimeContext,
    standard_data_dir: Option<&ProfilePath>,
    standard_settings_dir: &ProfilePath,
) -> (r: (Vec<ProfilePath>, Vec<ProfilePath>))
    ensures
        (paths_view(r.0@), paths_view(r.1@)) == separation_candidates_spec(
            context@,
            match standard_data_dir {
                Some(d) => Some(d@),
                None => None,
            },
            standard_settings_dir@,
        ),
{
    proof {
        lemma_candidate_names();
    }
    let mut portable: Vec<ProfilePath> = Vec::new();
    portable.push(context.data_dir().duplicate());
    portable.push(context.catalog_file().duplicate());
    portable.push(context.settings_file().duplicate());
    let mut standard: Vec<ProfilePath> = Vec::new();
    standard.push(standard_settings_dir.duplicate());
    standard.push(standard_settings_dir.join_name(SETTINGS_FILE));
    match standard_data_dir {
        Some(d) => {
            standard.push(d.duplicate());
            standard.push(d.join_name(CATALOG_FILE_NAME));
        },
        None => {},
    }
    let ghost expected = separation_candidates_spec(
        context@,
        match standard_data_dir {
            Some(d) => Some(d@),
            None => None,
        },
        standard_settings_dir@,
    );
    assert(paths_view(portable@) =~= expected.0);
    assert(paths_view(standard@) =~= expected.1);
    (portable, standard)
}

/// Where the walk towards a path's nearest existing ancestor stands: the
/// path being located, and how many of its last names have been found not
/// to exist.
pub struct LocateState {
    path: ProfilePath,
    climbed: usize,
}

/// The view of a [`LocateState`]: the path and the number of names climbed
/// past.
pub struct LocateView {
    pub path: Seq<PartView>,
    pub climbed: nat,
}

impl View for LocateState {
    type V = LocateView;

    closed spec fn view(&self) -> LocateView {
        LocateView { path: self.path@, climbed: self.climbed as nat }
    }
}

/// The names climbed past are the path's last components, and each is a
/// name.
pub open spec fn climbed_names(path: Seq<PartView>, climbed: nat) -> bool {
    &&& climbed <= path.len()
    &&& forall|i: int| path.len() - climbed <= i < path.len() ==> (#[trigger] path[i]) is Normal
}

/// The ancestor tried next.
pub open spec fn existing_of(state: LocateView) -> Seq<PartView> {
    state.path.subrange(0, state.path.len() - state.climbed)
}

/// The names below that ancestor.
pub open spec fn suffix_of(state: LocateView) -> Seq<PartView> {
    state.path.subrange(state.path.len() - state.climbed, state.path.len() as int)
}

/// What resolving the ancestor gave: its resolved path and identity, "not
/// found", or another failure.
pub enum ProbeOutcome {
    Resolved { resolved: ProfilePath, identity: FileIdentity },
    NotFound,
    Failed,
}

/// The next step of the walk.
pub enum LocateStep {
    /// Resolve this state's ancestor next.
    Probe(LocateState),
    /// The path is located.
    Located(PhysicalLocation),
    /// No ancestor of the path exists.
    NoExistingAncestor,
    /// Resolving an ancestor failed for another reason than "not found".
    Failed,
    /// The names below the existing ancestor cannot be trusted to compare.
    NonAsciiSuffix,
}

/// One step of the walk: a resolved ancestor locates the path, with the
/// climbed names appended to its resolved path; a missing ancestor whose
/// last component is a name climbs one name further up; anything else ends
/// the walk.
pub open spec fn locate_step_spec(
    state: LocateView,
    outcome: ProbeOutcome,
    ascii_only: bool,
    r: LocateStep,
) -> bool {
    match outcome {
        ProbeOutcome::Resolved { resolved, identity } => if ascii_only && !ascii_parts(
            suffix_of(state),
        ) {
            r is NonAsciiSuffix
        } else {
            r matches LocateStep::Located(loc) && loc@ == (LocationView {
                identity,
                missing_suffix: suffix_of(state),
                resolved_path: join_parts(resolved@, suffix_of(state)),
            })
        },
        ProbeOutcome::NotFound => if state.climbed < state.path.len() && state.path[state.path.len()
            - state.climbed - 1] is Normal {
            r matches LocateStep::Probe(next) && next@ == (LocateView {
                path: state.path,
                climbed: state.climbed + 1,
            })
        } else {
            r is NoExistingAncestor
        },
        ProbeOutcome::Failed => r is Failed,
    }
}

impl LocateState {
    #[verifier::type_invariant]
    spec fn well_formed(self) -> bool {
        climbed_names(self.path@, self.climbed as nat)
    }

    /// The walk for `path`, starting at the path itself.
    pub fn start(path: ProfilePath) -> (r: LocateState)
        ensures
            r@ == (LocateView { path: path@, climbed: 0 }),
    {
        LocateState { path, climbed: 0 }
    }

    /// The ancestor to resolve next.
    pub fn existing(&self) -> (r: ProfilePath)
        ensures
            r@ == existing_of(self@),
    {
        proof {
            use_type_invariant(self);
        }
        let n = self.path.parts().len();
        self.path.prefix(n - self.climbed)
    }

    /// One step of the walk (see [`locate_step_spec`]).
    pub fn step(self, outcome: ProbeOutcome, ascii_only: bool) -> (r: LocateStep)
        ensures
            locate_step_spec(self@, outcome, ascii_only, r),
            r matches LocateStep::Probe(next) ==> next@.climbed == self@.climbed + 1 && next@.climbed
                <= next@.path.len(),
    {
        proof {
            use_type_invariant(&self);
        }
        let ghost view = self@;
        match outcome {
            ProbeOutcome::Resolved { resolved, identity } => {
                let suffix = suffix_path(&self.path, self.climbed);
                if validate_missing_suffix(&suffix, ascii_only).is_err() {
                    return LocateStep::NonAsciiSuffix;
                }
                let resolved_path = resolved.join(&suffix);
                LocateStep::Located(PhysicalLocation { identity, missing_suffix: suffix, resolved_path })
            },
            ProbeOutcome::NotFound => {
                let n = self.path.parts().len();
                if self.climbed < n {
                    let at = n - self.climbed - 1;
                    let is_name = match &self.path.parts()[at] {
                        PathPart::Normal(_) => true,
                        _ => false,
                    };
                    if is_name {
                        let next = LocateState { path: self.path, climbed: self.climbed + 1 };
                        assert(next@.path == view.path);
                        return LocateStep::Probe(next);
                    }
                }
                LocateStep::NoExistingAncestor
            },
            ProbeOutcome::Failed => LocateStep::Failed,
        }
    }
}

/// The last `climbed` components of `path`, all names, as a path.
fn suffix_path(path: &ProfilePath, climbed: usize) -> (r: ProfilePath)
    requires
        climbed_names(path@, climbed as nat),
    ensures
        r@ == path@.subrange(path@.len() - climbed, path@.len() as int),
{
    let parts = path.parts();
    let n = parts.len();
    let start = n - climbed;
    let mut names: Vec<PathPart> = Vec::new();
    let mut i: usize = start;
    while i < n
        invariant
            n == path@.len(),
            parts_view(parts@) == path@,
            start == n - climbed,
            start <= i <= n,
            climbed_names(path@, climbed as nat),
            wf_parts(path@),
            parts_view(names@) == path@.subrange(start as int, i as int),
        decreases n - i,
    {
        let p = parts[i].clone();
        assert(parts_view(names@.push(p)) =~= parts_view(names@).push(p@));
        names.push(p);
        assert(path@.subrange(start as int, i + 1) =~= path@.subrange(start as int, i as int).push(
            path@[i as int],
        ));
        i = i + 1;
    }
    let ghost v = parts_view(names@);
    assert(wf_parts(v)) by {
        assert forall|k: int| 0 <= k < v.len() implies match #[trigger] v[k] {
            PartView::Prefix(s) => k == 0 && s.len() > 0,
            PartView::RootDir => k == 0 || (k == 1 && v[0] is Prefix),
            PartView::CurDir => true,
            PartView::ParentDir => true,
            PartView::Normal(s) => component_name(s),
        } by {
            assert(v[k] == path@[start + k]);
            assert(path@[start + k] is Normal);
        }
    }
    match ProfilePath::from_parts(names) {
        Some(r) => r,
        None => {
            assert(false);
            ProfilePath::parse("")
        },
    }
}

/// Why a path's missing suffix cannot be located.
#[derive(Clone, Copy, Debug, PartialEq, Eq, Structural)]
pub enum SuffixError {
    /// A name below the nearest existing ancestor is not ASCII, so a
    /// platform that normalizes names cannot be trusted to compare it.
    NonAsciiSuffix,
}

/// A name made of ASCII characters only.
pub open spec fn ascii_name(name: Seq<char>) -> bool {
    forall|k: int| 0 <= k < name.len() ==> (#[trigger] name[k] as u32) < 128
}

/// All names of a path are ASCII.
pub open spec fn ascii_parts(parts: Seq<PartView>) -> bool {
    forall|i: int| 0 <= i < parts.len() && (#[trigger] parts[i]) is Normal ==> ascii_name(parts[i]->Normal_0)
}

fn is_ascii_name(name: &String) -> (r: bool)
    ensures
        r == ascii_name(name@),
{
    let m = name.as_str().unicode_len();
    let mut k: usize = 0;
    while k < m
        invariant
            m == name@.len(),
            k <= m,
            forall|b: int| 0 <= b < k ==> (#[trigger] name@[b] as u32) < 128,
        decreases m - k,
    {
        if (name.as_str().get_char(k) as u32) >= 128 {
            assert((name@[k as int] as u32) >= 128);
            return false;
        }
        k = k + 1;
    }
    true
}

fn all_names_ascii(suffix: &ProfilePath) -> (r: bool)
    ensures
        r == ascii_parts(suffix@),
{
    let parts = suffix.parts();
    let n = parts.len();
    let mut i: usize = 0;
    while i < n
        invariant
            n == suffix@.len(),
            crate::paths::parts_view(parts@) == suffix@,
            i <= n,
            forall|a: int| 0 <= a < i && (#[trigger] suffix@[a]) is Normal ==> ascii_name(suffix@[a]->Normal_0),
        decreases n - i,
    {
        match &parts[i] {
            crate::paths::PathPart::Normal(name) => {
                if !is_ascii_name(name) {
                    assert(suffix@[i as int] == PartView::Normal(name@));
                    assert(!ascii_name(suffix@[i as int]->Normal_0));
                    return false;
                }
            },
            _ => {},
        }
        i = i + 1;
    }
    true
}

/// A missing suffix is accepted, except that where the platform normalizes
/// names (`ascii_only`, macOS) every name in it must be ASCII.
pub fn validate_missing_suffix(suffix: &ProfilePath, ascii_only: bool) -> (r: Result<(), SuffixError>)
    ensures
        r is Ok <==> (!ascii_only || ascii_parts(suffix@)),
{
    if ascii_only && !all_names_ascii(suffix) {
        Err(SuffixError::NonAsciiSuffix)
    } else {
        Ok(())
    }
}

} // verus!
