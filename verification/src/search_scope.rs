//! The scope one search runs under, built from what the user chose: the
//! active kind filters, and the selected folder with its subfolder setting.
//!
//! A kind filter stands for its file extensions, compared in ASCII lower
//! case, each once, in order. A folder chip stands in when no location is
//! selected; a selected location wins, since it carries a subfolder
//! setting.

use crate::text::{ascii_lower, ascii_lowercase, is_whitespace, owned, text_equal, whitespace};
use vstd::prelude::*;
use vstd::string::*;

verus! {

broadcast use vstd::string::group_string_axioms;

/// A filter chip of a search.
#[derive(Debug)]
pub enum ActiveFilter {
    /// A file kind, standing for its extensions.
    Kind { extensions: Vec<String> },
    /// A folder, by its source id.
    Folder { id: String },
    /// Any other chip.
    Other,
}

/// The view of an [`ActiveFilter`].
pub enum FilterView {
    Kind(Seq<Seq<char>>),
    Folder(Seq<char>),
    Other,
}

impl View for ActiveFilter {
    type V = FilterView;

    open spec fn view(&self) -> FilterView {
        match self {
            ActiveFilter::Kind { extensions } => FilterView::Kind(
                extensions@.map_values(|e: String| e@),
            ),
            ActiveFilter::Folder { id } => FilterView::Folder(id@),
            ActiveFilter::Other => FilterView::Other,
        }
    }
}

/// The location selected for a search: its folder, if it names one, the
/// path it is limited to, and whether subfolders count.
#[derive(Debug)]
pub struct SearchLocation {
    pub source_id: Option<String>,
    pub limit_path: Option<String>,
    pub include_subfolders: bool,
}

/// The folder a search is limited to.
#[derive(Debug)]
pub struct FolderScope {
    pub source_id: String,
    pub limit_path: Option<String>,
    pub include_subfolders: bool,
}

/// What a search covers.
#[derive(Debug)]
pub struct SearchScope {
    pub extensions: Vec<String>,
    pub folder: Option<FolderScope>,
}

/// The view of a [`FolderScope`]: source id, limit path, subfolders.
pub type FolderView = (Seq<char>, Option<Seq<char>>, bool);

/// The views of a list of filters.
pub open spec fn filters_view(filters: Seq<ActiveFilter>) -> Seq<FilterView> {
    filters.map_values(|f: ActiveFilter| f@)
}

/// The views of a list of texts.
pub open spec fn texts_view(texts: Seq<String>) -> Seq<Seq<char>> {
    texts.map_values(|t: String| t@)
}

/// An optional text by its view.
pub open spec fn opt_view(text: Option<String>) -> Option<Seq<char>> {
    match text {
        Some(t) => Some(t@),
        None => None,
    }
}

/// The order of `str`: lexicographic, a proper prefix first. (UTF-8 byte
/// order and code point order agree, so this compares characters.)
pub open spec fn text_less(a: Seq<char>, b: Seq<char>) -> bool
    decreases a.len(),
{
    if a.len() == 0 {
        b.len() > 0
    } else if b.len() == 0 {
        false
    } else if a[0] != b[0] {
        (a[0] as int) < (b[0] as int)
    } else {
        text_less(a.drop_first(), b.drop_first())
    }
}

/// Each text comes before the next: sorted, and no text twice.
pub open spec fn strictly_sorted(texts: Seq<Seq<char>>) -> bool {
    forall|i: int, j: int| 0 <= i < j < texts.len() ==> text_less(#[trigger] texts[i], #[trigger] texts[j])
}

/// The lowercased extensions of the kind filters among the first `upto`
/// filters.
pub open spec fn kind_extensions(filters: Seq<FilterView>, upto: int) -> Set<Seq<char>> {
    Set::new(
        |e: Seq<char>|
            exists|i: int, j: int|
                0 <= i < upto && #[trigger] filters[i] is Kind && 0 <= j < filters[i]->Kind_0.len()
                    && e == ascii_lower(#[trigger] filters[i]->Kind_0[j]),
    )
}

/// The lowercased texts among the first `upto` of `texts`.
pub open spec fn lowered_upto(texts: Seq<Seq<char>>, upto: int) -> Set<Seq<char>> {
    Set::new(|e: Seq<char>| exists|b: int| 0 <= b < upto && e == ascii_lower(#[trigger] texts[b]))
}

/// The first folder chip's id.
pub open spec fn first_folder(filters: Seq<FilterView>) -> Option<Seq<char>>
    decreases filters.len(),
{
    if filters.len() == 0 {
        None
    } else {
        match first_folder(filters.drop_last()) {
            Some(id) => Some(id),
            None => match filters.last() {
                FilterView::Folder(id) => Some(id),
                _ => None,
            },
        }
    }
}

/// The folder of the scope: the selected location when it names a folder,
/// with its limit path and subfolder setting; otherwise the first folder
/// chip, with no limit and its subfolders.
pub open spec fn scope_folder(
    filters: Seq<FilterView>,
    location: Option<(Option<Seq<char>>, Option<Seq<char>>, bool)>,
) -> Option<FolderView> {
    match location {
        Some((Some(id), limit, subfolders)) => Some((id, limit, subfolders)),
        _ => match first_folder(filters) {
            Some(id) => Some((id, None, true)),
            None => None,
        },
    }
}

/// The view of a selected location.
pub open spec fn location_view(location: Option<&SearchLocation>) -> Option<
    (Option<Seq<char>>, Option<Seq<char>>, bool),
> {
    match location {
        Some(loc) => Some((opt_view(loc.source_id), opt_view(loc.limit_path), loc.include_subfolders)),
        None => None,
    }
}

/// The view of a scope's folder.
pub open spec fn folder_scope_view(folder: Option<FolderScope>) -> Option<FolderView> {
    match folder {
        Some(f) => Some((f.source_id@, opt_view(f.limit_path), f.include_subfolders)),
        None => None,
    }
}

proof fn lemma_less_irreflexive(a: Seq<char>)
    ensures
        !text_less(a, a),
    decreases a.len(),
{
    if a.len() > 0 {
        lemma_less_irreflexive(a.drop_first());
    }
}

proof fn lemma_less_transitive(a: Seq<char>, b: Seq<char>, c: Seq<char>)
    requires
        text_less(a, b),
        text_less(b, c),
    ensures
        text_less(a, c),
    decreases a.len(),
{
    if a.len() > 0 && b.len() > 0 && c.len() > 0 && a[0] == b[0] && b[0] == c[0] {
        lemma_less_transitive(a.drop_first(), b.drop_first(), c.drop_first());
    }
}

proof fn lemma_less_total(a: Seq<char>, b: Seq<char>)
    requires
        a != b,
    ensures
        text_less(a, b) || text_less(b, a),
    decreases a.len(),
{
    if a.len() > 0 && b.len() > 0 && a[0] == b[0] {
        if a.drop_first() == b.drop_first() {
            assert(a =~= seq![a[0]] + a.drop_first());
            assert(b =~= seq![b[0]] + b.drop_first());
        }
        lemma_less_total(a.drop_first(), b.drop_first());
    } else if a.len() > 0 && b.len() > 0 {
    } else if a.len() == 0 && b.len() == 0 {
        assert(a =~= b);
    }
}

/// Whether `a` comes before `b` in the order of `str`.
pub fn text_before(a: &str, b: &str) -> (r: bool)
    ensures
        r == text_less(a@, b@),
{
    let n = a.unicode_len();
    let m = b.unicode_len();
    let mut k: usize = 0;
    assert(a@.skip(0) =~= a@);
    assert(b@.skip(0) =~= b@);
    while k < n && k < m
        invariant
            n == a@.len(),
            m == b@.len(),
            k <= n,
            k <= m,
            text_less(a@, b@) == text_less(a@.skip(k as int), b@.skip(k as int)),
        decreases n - k,
    {
        let ca = a.get_char(k);
        let cb = b.get_char(k);
        assert(a@.skip(k as int)[0] == ca);
        assert(b@.skip(k as int)[0] == cb);
        if ca != cb {
            return (ca as u32) < (cb as u32);
        }
        assert(a@.skip(k as int).drop_first() =~= a@.skip(k + 1));
        assert(b@.skip(k as int).drop_first() =~= b@.skip(k + 1));
        k = k + 1;
    }
    assert(a@.skip(k as int).len() == n - k);
    assert(b@.skip(k as int).len() == m - k);
    k == n && k < m
}

/// Inserts `text` into a strictly sorted list, where it is not there yet.
fn insert_sorted(list: &mut Vec<String>, text: String)
    requires
        strictly_sorted(texts_view(old(list)@)),
    ensures
        strictly_sorted(texts_view(final(list)@)),
        texts_view(final(list)@).to_set() == texts_view(old(list)@).to_set().insert(text@),
{
    let ghost before = texts_view(list@);
    let n = list.len();
    let mut p: usize = 0;
    while p < n && text_before(list[p].as_str(), text.as_str())
        invariant
            n == list@.len(),
            before == texts_view(list@),
            p <= n,
            forall|i: int| 0 <= i < p ==> text_less(#[trigger] before[i], text@),
        decreases n - p,
    {
        assert(before[p as int] == list@[p as int]@);
        p = p + 1;
    }
    if p < n {
        assert(before[p as int] == list@[p as int]@);
        assert(!text_less(before[p as int], text@));
        if text_equal(list[p].as_str(), text.as_str()) {
            assert(before.to_set().insert(text@) =~= before.to_set()) by {
                assert(before.contains(text@));
            }
            return;
        }
        proof {
            lemma_less_total(before[p as int], text@);
        }
    }
    let ghost t = text@;
    list.insert(p, text);
    let ghost after = texts_view(list@);
    assert(after =~= before.insert(p as int, t));
    assert forall|i: int, j: int| 0 <= i < j < after.len() implies text_less(
        #[trigger] after[i],
        #[trigger] after[j],
    ) by {
        if j < p {
            assert(after[i] == before[i] && after[j] == before[j]);
        } else if j == p {
            assert(after[i] == before[i]);
        } else if i == p {
            assert(after[j] == before[j - 1]);
            if j - 1 > p {
                lemma_less_transitive(t, before[p as int], before[j - 1]);
            }
        } else if i < p {
            assert(after[i] == before[i]);
            assert(after[j] == before[j - 1]);
            assert(text_less(before[i], t));
            assert(text_less(t, before[p as int]));
            lemma_less_transitive(before[i], t, before[p as int]);
            if j - 1 > p {
                lemma_less_transitive(before[i], before[p as int], before[j - 1]);
            }
        } else {
            assert(after[i] == before[i - 1]);
            assert(after[j] == before[j - 1]);
        }
    }
    assert(after.to_set() =~= before.to_set().insert(t)) by {
        assert forall|e: Seq<char>| after.to_set().contains(e) <==> before.to_set().insert(t).contains(
            e,
        ) by {
            if after.to_set().contains(e) {
                let k = choose|k: int| 0 <= k < after.len() && after[k] == e;
                if k < p {
                    assert(before[k] == e);
                } else if k > p {
                    assert(before[k - 1] == e);
                }
            }
            if before.to_set().contains(e) {
                let k = choose|k: int| 0 <= k < before.len() && before[k] == e;
                if k < p {
                    assert(after[k] == e);
                } else {
                    assert(after[k + 1] == e);
                }
            }
            if e == t {
                assert(after[p as int] == t);
            }
        }
    }
}

/// The scope of a search from its filter chips and selected location: the
/// kind filters' extensions, lowercased, sorted, each once; and the folder
/// (see [`scope_folder`]).
pub fn scope_from_ui(filters: &Vec<ActiveFilter>, location: Option<&SearchLocation>) -> (r:
    SearchScope)
    ensures
        strictly_sorted(texts_view(r.extensions@)),
        texts_view(r.extensions@).to_set() == kind_extensions(
            filters_view(filters@),
            filters@.len() as int,
        ),
        folder_scope_view(r.folder) == scope_folder(filters_view(filters@), location_view(location)),
{
    let ghost fv = filters_view(filters@);
    let mut extensions: Vec<String> = Vec::new();
    let mut folder_from_chip: Option<String> = None;
    let n = filters.len();
    let mut i: usize = 0;
    assert(texts_view(extensions@).to_set() =~= kind_extensions(fv, 0));
    while i < n
        invariant
            n == filters@.len(),
            fv == filters_view(filters@),
            i <= n,
            strictly_sorted(texts_view(extensions@)),
            texts_view(extensions@).to_set() == kind_extensions(fv, i as int),
            opt_view(folder_from_chip) == first_folder(fv.subrange(0, i as int)),
        decreases n - i,
    {
        assert(fv[i as int] == filters@[i as int]@);
        assert(fv.subrange(0, i + 1).drop_last() =~= fv.subrange(0, i as int));
        assert(fv.subrange(0, i + 1).last() == fv[i as int]);
        match &filters[i] {
            ActiveFilter::Kind { extensions: kinds } => {
                let ghost ks = texts_view(kinds@);
                assert(fv[i as int] == FilterView::Kind(ks));
                let m = kinds.len();
                let mut j: usize = 0;
                while j < m
                    invariant
                        n == filters@.len(),
                        fv == filters_view(filters@),
                        i < n,
                        m == kinds@.len(),
                        ks == texts_view(kinds@),
                        fv[i as int] == FilterView::Kind(ks),
                        j <= m,
                        strictly_sorted(texts_view(extensions@)),
                        texts_view(extensions@).to_set() == kind_extensions(fv, i as int).union(
                            lowered_upto(ks, j as int),
                        ),
                    decreases m - j,
                {
                    let lower = ascii_lowercase(kinds[j].as_str());
                    assert(ks[j as int] == kinds@[j as int]@);
                    insert_sorted(&mut extensions, lower);
                    assert(lowered_upto(ks, j + 1) =~= lowered_upto(ks, j as int).insert(
                        ascii_lower(ks[j as int]),
                    )) by {
                        assert forall|e: Seq<char>| lowered_upto(ks, j + 1).contains(e) implies lowered_upto(ks, j as int).insert(
                            ascii_lower(ks[j as int]),
                        ).contains(e) by {
                            let b = choose|b: int| 0 <= b < j + 1 && e == ascii_lower(#[trigger] ks[b]);
                            if b < j {
                                assert(lowered_upto(ks, j as int).contains(e));
                            }
                        }
                        assert(lowered_upto(ks, j + 1).contains(ascii_lower(ks[j as int])));
                    }
                    assert(texts_view(extensions@).to_set() =~= kind_extensions(fv, i as int).union(
                        lowered_upto(ks, j + 1),
                    ));
                    j = j + 1;
                }
                assert(kind_extensions(fv, i + 1) =~= kind_extensions(fv, i as int).union(
                    lowered_upto(ks, m as int),
                )) by {
                    assert forall|e: Seq<char>| kind_extensions(fv, i + 1).contains(e) <==> kind_extensions(fv, i as int).union(
                        lowered_upto(ks, m as int),
                    ).contains(e) by {
                        if kind_extensions(fv, i + 1).contains(e) {
                            let (a, b) = choose|a: int, b: int|
                                0 <= a < i + 1 && #[trigger] fv[a] is Kind && 0 <= b < fv[a]->Kind_0.len()
                                    && e == ascii_lower(#[trigger] fv[a]->Kind_0[b]);
                            if a < i {
                                assert(kind_extensions(fv, i as int).contains(e));
                            } else {
                                assert(fv[a]->Kind_0[b] == ks[b]);
                                assert(lowered_upto(ks, m as int).contains(e));
                            }
                        }
                        if kind_extensions(fv, i as int).contains(e) {
                            let (a, b) = choose|a: int, b: int|
                                0 <= a < i && #[trigger] fv[a] is Kind && 0 <= b < fv[a]->Kind_0.len()
                                    && e == ascii_lower(#[trigger] fv[a]->Kind_0[b]);
                            assert(0 <= a < i + 1);
                        }
                        if lowered_upto(ks, m as int).contains(e) {
                            let b = choose|b: int| 0 <= b < m && e == ascii_lower(#[trigger] ks[b]);
                            assert(fv[i as int]->Kind_0[b] == ks[b]);
                        }
                    }
                }
            },
            ActiveFilter::Folder { id } => {
                if folder_from_chip.is_none() {
                    folder_from_chip = Some(owned(id.as_str()));
                }
                assert(kind_extensions(fv, i + 1) =~= kind_extensions(fv, i as int)) by {
                    assert forall|e: Seq<char>| kind_extensions(fv, i + 1).contains(e) implies kind_extensions(fv, i as int).contains(e) by {
                        let (a, b) = choose|a: int, b: int|
                            0 <= a < i + 1 && #[trigger] fv[a] is Kind && 0 <= b < fv[a]->Kind_0.len()
                                && e == ascii_lower(#[trigger] fv[a]->Kind_0[b]);
                        assert(a != i);
                    }
                }
            },
            ActiveFilter::Other => {
                assert(kind_extensions(fv, i + 1) =~= kind_extensions(fv, i as int)) by {
                    assert forall|e: Seq<char>| kind_extensions(fv, i + 1).contains(e) implies kind_extensions(fv, i as int).contains(e) by {
                        let (a, b) = choose|a: int, b: int|
                            0 <= a < i + 1 && #[trigger] fv[a] is Kind && 0 <= b < fv[a]->Kind_0.len()
                                && e == ascii_lower(#[trigger] fv[a]->Kind_0[b]);
                        assert(a != i);
                    }
                }
            },
        }
        i = i + 1;
    }
    assert(fv.subrange(0, n as int) =~= fv);
    let folder = match location {
        Some(loc) => match &loc.source_id {
            Some(id) => Some(
                FolderScope {
                    source_id: owned(id.as_str()),
                    limit_path: match &loc.limit_path {
                        Some(limit) => Some(owned(limit.as_str())),
                        None => None,
                    },
                    include_subfolders: loc.include_subfolders,
                },
            ),
            None => match folder_from_chip {
                Some(id) => Some(FolderScope { source_id: id, limit_path: None, include_subfolders: true }),
                None => None,
            },
        },
        None => match folder_from_chip {
            Some(id) => Some(FolderScope { source_id: id, limit_path: None, include_subfolders: true }),
            None => None,
        },
    };
    SearchScope { extensions, folder }
}

/// A text that is empty once trimmed: white space only.
pub open spec fn blank(text: Seq<char>) -> bool {
    forall|k: int| 0 <= k < text.len() ==> whitespace(#[trigger] text[k])
}

/// Whether `text.trim()` is empty.
pub fn is_blank(text: &str) -> (r: bool)
    ensures
        r == blank(text@),
{
    let n = text.unicode_len();
    let mut k: usize = 0;
    while k < n
        invariant
            n == text@.len(),
            k <= n,
            forall|b: int| 0 <= b < k ==> whitespace(#[trigger] text@[b]),
        decreases n - k,
    {
        if !is_whitespace(text.get_char(k)) {
            assert(!whitespace(text@[k as int]));
            return false;
        }
        k = k + 1;
    }
    true
}

/// The search to resume once a folder picked for it is registered: the
/// query pending when the picker opened, unless there is none or it is
/// blank.
pub fn after_folder_picked(pending_query: Option<&str>) -> (r: Option<String>)
    ensures
        match pending_query {
            Some(q) => if blank(q@) {
                r is None
            } else {
                r matches Some(s) && s@ == q@
            },
            None => r is None,
        },
{
    match pending_query {
        Some(q) => if is_blank(q) {
            None
        } else {
            Some(owned(q))
        },
        None => None,
    }
}

/// Whether a finished search is recorded in the recent searches: only when
/// history is enabled, and never a blank query.
pub fn should_record_search(history_enabled: bool, search_text: &str) -> (r: bool)
    ensures
        r == (history_enabled && !blank(search_text@)),
{
    history_enabled && !is_blank(search_text)
}

} // verus!
