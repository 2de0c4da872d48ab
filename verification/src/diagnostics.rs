//! Safe diagnostics and the redacted support bundle.
//!
//! The bundle is exported by hand, never uploaded. By default it is
//! redacted: no document contents, no search text, no raw paths; each
//! optional inclusion is an explicit opt-in.

use crate::text::{append_text, is_whitespace, owned, push_char, whitespace};
use vstd::prelude::*;
use vstd::string::*;

verus! {

broadcast use vstd::string::group_string_axioms;

/// What the user allowed into a diagnostics bundle.
#[derive(Debug)]
pub struct DiagnosticsPolicy {
    /// The privacy mode's name.
    pub privacy_mode: String,
    pub include_raw_paths: bool,
    pub include_folder_names: bool,
    pub include_recent_searches: bool,
}

/// The bundle manifest: exactly what was included.
#[derive(Debug)]
pub struct DiagnosticsManifest {
    pub app: &'static str,
    pub bundle_version: u32,
    pub created_at: String,
    pub privacy_mode: String,
    pub redacted: bool,
    pub includes_document_contents: bool,
    pub includes_search_text: bool,
    pub includes_raw_paths: bool,
    pub includes_folder_names: bool,
    pub includes_recent_searches: bool,
}

impl DiagnosticsManifest {
    /// The manifest of a bundle made under `policy` at `created_at`: always
    /// redacted, never with documents or search text, and with each
    /// optional part exactly as the policy allows.
    pub fn from_policy(policy: &DiagnosticsPolicy, created_at: String) -> (r: Self)
        ensures
            r.app@ == "orbok"@,
            r.bundle_version == 1,
            r.created_at@ == created_at@,
            r.privacy_mode@ == policy.privacy_mode@,
            r.redacted,
            !r.includes_document_contents,
            !r.includes_search_text,
            r.includes_raw_paths == policy.include_raw_paths,
            r.includes_folder_names == policy.include_folder_names,
            r.includes_recent_searches == policy.include_recent_searches,
    {
        DiagnosticsManifest {
            app: "orbok",
            bundle_version: 1,
            created_at,
            privacy_mode: policy.privacy_mode.clone(),
            redacted: true,
            includes_document_contents: false,
            includes_search_text: false,
            includes_raw_paths: policy.include_raw_paths,
            includes_folder_names: policy.include_folder_names,
            includes_recent_searches: policy.include_recent_searches,
        }
    }
}

/// The sections of a bundle.
#[derive(Clone, Copy, Debug, PartialEq, Eq, Structural, Hash)]
pub enum DiagnosticsSectionKind {
    App,
    Platform,
    Settings,
    Storage,
    Sources,
    Indexing,
    Extraction,
    Models,
    Scheduler,
    Errors,
    Logs,
}

/// The file each section is written to.
pub open spec fn section_filename(kind: DiagnosticsSectionKind) -> &'static str {
    match kind {
        DiagnosticsSectionKind::App => "app.json",
        DiagnosticsSectionKind::Platform => "platform.json",
        DiagnosticsSectionKind::Settings => "settings-redacted.json",
        DiagnosticsSectionKind::Storage => "storage-summary.json",
        DiagnosticsSectionKind::Sources => "sources-summary.json",
        DiagnosticsSectionKind::Indexing => "indexing-summary.json",
        DiagnosticsSectionKind::Extraction => "extraction-summary.json",
        DiagnosticsSectionKind::Models => "models-summary.json",
        DiagnosticsSectionKind::Scheduler => "scheduler-summary.json",
        DiagnosticsSectionKind::Errors => "recent-errors.json",
        DiagnosticsSectionKind::Logs => "logs-redacted.txt",
    }
}

impl DiagnosticsSectionKind {
    pub fn filename(&self) -> (r: &'static str)
        ensures
            r == section_filename(*self),
    {
        match self {
            DiagnosticsSectionKind::App => "app.json",
            DiagnosticsSectionKind::Platform => "platform.json",
            DiagnosticsSectionKind::Settings => "settings-redacted.json",
            DiagnosticsSectionKind::Storage => "storage-summary.json",
            DiagnosticsSectionKind::Sources => "sources-summary.json",
            DiagnosticsSectionKind::Indexing => "indexing-summary.json",
            DiagnosticsSectionKind::Extraction => "extraction-summary.json",
            DiagnosticsSectionKind::Models => "models-summary.json",
            DiagnosticsSectionKind::Scheduler => "scheduler-summary.json",
            DiagnosticsSectionKind::Errors => "recent-errors.json",
            DiagnosticsSectionKind::Logs => "logs-redacted.txt",
        }
    }
}

/// The safe app-level facts: the app's name, its version, and whether this
/// is a debug or a release build.
pub fn collect_app_info(version: &str, debug_build: bool) -> (r: Vec<(&'static str, String)>)
    ensures
        r@.len() == 3,
        r@[0].0@ == "app"@ && r@[0].1@ == "orbok"@,
        r@[1].0@ == "version"@ && r@[1].1@ == version@,
        r@[2].0@ == "build_profile"@ && r@[2].1@ == (if debug_build {
            "debug"@
        } else {
            "release"@
        }),
{
    let mut info: Vec<(&'static str, String)> = Vec::new();
    info.push(("app", owned("orbok")));
    info.push(("version", owned(version)));
    let profile = if debug_build {
        owned("debug")
    } else {
        owned("release")
    };
    info.push(("build_profile", profile));
    info
}

/// The safe platform facts: operating system, architecture and family, as
/// the platform names them.
pub fn collect_platform_info(os: &str, arch: &str, family: &str) -> (r: Vec<(&'static str, String)>)
    ensures
        r@.len() == 3,
        r@[0].0@ == "os"@ && r@[0].1@ == os@,
        r@[1].0@ == "arch"@ && r@[1].1@ == arch@,
        r@[2].0@ == "family"@ && r@[2].1@ == family@,
{
    let mut info: Vec<(&'static str, String)> = Vec::new();
    info.push(("os", owned(os)));
    info.push(("arch", owned(arch)));
    info.push(("family", owned(family)));
    info
}

/// The words of the bundle preview, in the interface language.
#[derive(Debug)]
pub struct BundleLabels {
    pub included_heading: String,
    pub app_version: String,
    pub platform_summary: String,
    pub folder_status_counts: String,
    pub search_preparation_status: String,
    pub model_readiness: String,
    pub redacted_logs: String,
    pub folder_names_opted_in: String,
    pub not_included_heading: String,
    pub documents: String,
    pub search_words: String,
    pub raw_folder_paths: String,
}

/// A preview line for something the bundle includes.
pub open spec fn included_line(item: Seq<char>) -> Seq<char> {
    "  \u{2713} "@ + item
}

/// A preview line for something the bundle leaves out.
pub open spec fn excluded_line(item: Seq<char>) -> Seq<char> {
    "  \u{d7} "@ + item
}

/// The preview's lines: what is included, with folder names only when the
/// policy opts in, a blank line, then what is not included.
pub open spec fn preview_lines(labels: BundleLabels, include_folder_names: bool) -> Seq<Seq<char>> {
    let included = seq![
        labels.included_heading@,
        included_line(labels.app_version@),
        included_line(labels.platform_summary@),
        included_line(labels.folder_status_counts@),
        included_line(labels.search_preparation_status@),
        included_line(labels.model_readiness@),
        included_line(labels.redacted_logs@),
    ];
    let opted = if include_folder_names {
        seq![included_line(labels.folder_names_opted_in@)]
    } else {
        Seq::<Seq<char>>::empty()
    };
    included + opted + seq![
        Seq::<char>::empty(),
        labels.not_included_heading@,
        excluded_line(labels.documents@),
        excluded_line(labels.search_words@),
        excluded_line(labels.raw_folder_paths@),
    ]
}

/// Lines joined with a line break between each two.
pub open spec fn joined_lines(lines: Seq<Seq<char>>) -> Seq<char>
    decreases lines.len(),
{
    if lines.len() == 0 {
        Seq::empty()
    } else if lines.len() == 1 {
        lines[0]
    } else {
        joined_lines(lines.drop_last()) + "\n"@ + lines.last()
    }
}

fn join_lines(lines: &Vec<String>) -> (r: String)
    ensures
        r@ == joined_lines(lines@.map_values(|l: String| l@)),
{
    let ghost views = lines@.map_values(|l: String| l@);
    let n = lines.len();
    let mut out = String::new();
    let mut i: usize = 0;
    while i < n
        invariant
            n == lines@.len(),
            views == lines@.map_values(|l: String| l@),
            i <= n,
            out@ == joined_lines(views.subrange(0, i as int)),
        decreases n - i,
    {
        assert(views.subrange(0, i + 1).drop_last() =~= views.subrange(0, i as int));
        assert(views.subrange(0, i + 1).last() == lines@[i as int]@);
        if i > 0 {
            append_text(&mut out, "\n");
        } else {
            assert(views.subrange(0, 1) =~= seq![views[0]]);
        }
        append_text(&mut out, lines[i].as_str());
        i = i + 1;
    }
    assert(views.subrange(0, n as int) =~= views);
    out
}

fn included(item: &String) -> (r: String)
    ensures
        r@ == included_line(item@),
{
    let mut line = owned("  \u{2713} ");
    append_text(&mut line, item.as_str());
    line
}

fn excluded(item: &String) -> (r: String)
    ensures
        r@ == excluded_line(item@),
{
    let mut line = owned("  \u{d7} ");
    append_text(&mut line, item.as_str());
    line
}

/// The summary shown before a bundle is exported: what it includes and what
/// it leaves out (see [`preview_lines`]).
pub fn bundle_preview_text(labels: &BundleLabels, policy: &DiagnosticsPolicy) -> (r: String)
    ensures
        r@ == joined_lines(preview_lines(*labels, policy.include_folder_names)),
{
    let mut lines: Vec<String> = Vec::new();
    lines.push(owned(labels.included_heading.as_str()));
    lines.push(included(&labels.app_version));
    lines.push(included(&labels.platform_summary));
    lines.push(included(&labels.folder_status_counts));
    lines.push(included(&labels.search_preparation_status));
    lines.push(included(&labels.model_readiness));
    lines.push(included(&labels.redacted_logs));
    if policy.include_folder_names {
        lines.push(included(&labels.folder_names_opted_in));
    }
    lines.push(String::new());
    lines.push(owned(labels.not_included_heading.as_str()));
    lines.push(excluded(&labels.documents));
    lines.push(excluded(&labels.search_words));
    lines.push(excluded(&labels.raw_folder_paths));
    assert(lines@.map_values(|l: String| l@) =~= preview_lines(*labels, policy.include_folder_names));
    join_lines(&lines)
}

/// Whether a character is alphanumeric, as `char::is_alphanumeric` says.
pub uninterp spec fn alphanumeric(c: char) -> bool;


/// `text` with every match of `from` replaced by `to`, as `str::replace`
/// computes it: matches are found from the left and do not overlap; an
/// empty pattern matches before every character and at the end.
pub open spec fn replaced(text: Seq<char>, from: Seq<char>, to: Seq<char>) -> Seq<char>
    decreases text.len(),
{
    if from.len() == 0 {
        if text.len() == 0 {
            to
        } else {
            to + seq![text[0]] + replaced(text.drop_first(), from, to)
        }
    } else if from.len() <= text.len() && text.subrange(0, from.len() as int) == from {
        to + replaced(text.skip(from.len() as int), from, to)
    } else if text.len() == 0 {
        Seq::empty()
    } else {
        seq![text[0]] + replaced(text.drop_first(), from, to)
    }
}

/// Calls `char::is_alphanumeric`. Claimed: the answer depends on the
/// character alone.
#[verifier::external_body]
fn is_alphanumeric(c: char) -> (r: bool)
    ensures
        r == alphanumeric(c),
{
    c.is_alphanumeric()
}

/// Whether `from` occurs in `text` at position `i`.
fn occurs_at(text: &str, from: &str, i: usize) -> (r: bool)
    requires
        i <= text@.len(),
    ensures
        r == (i + from@.len() <= text@.len() && text@.subrange(i as int, i + from@.len()) == from@),
{
    let n = text.unicode_len();
    let m = from.unicode_len();
    if m > n - i {
        return false;
    }
    let mut k: usize = 0;
    while k < m
        invariant
            n == text@.len(),
            m == from@.len(),
            i + m <= n,
            k <= m,
            forall|j: int| 0 <= j < k ==> text@[i + j] == from@[j],
        decreases m - k,
    {
        if text.get_char(i + k) != from.get_char(k) {
            assert(text@.subrange(i as int, i + m)[k as int] != from@[k as int]);
            return false;
        }
        k = k + 1;
    }
    assert(text@.subrange(i as int, i + m) =~= from@);
    true
}

/// One step of [`replaced`] on the text from position `i`.
proof fn lemma_replaced_step(text: Seq<char>, from: Seq<char>, to: Seq<char>, i: int)
    requires
        0 <= i <= text.len(),
    ensures
        from.len() == 0 && i < text.len() ==> replaced(text.skip(i), from, to) == to + seq![text[i]]
            + replaced(text.skip(i + 1), from, to),
        from.len() > 0 && i + from.len() <= text.len() && text.subrange(i, i + from.len()) == from
            ==> replaced(text.skip(i), from, to) == to + replaced(
            text.skip(i + from.len()),
            from,
            to,
        ),
        from.len() > 0 && i < text.len() && !(i + from.len() <= text.len() && text.subrange(
            i,
            i + from.len(),
        ) == from) ==> replaced(text.skip(i), from, to) == seq![text[i]] + replaced(
            text.skip(i + 1),
            from,
            to,
        ),
        i == text.len() ==> replaced(text.skip(i), from, to) == (if from.len() == 0 {
            to
        } else {
            Seq::<char>::empty()
        }),
{
    let rest = text.skip(i);
    if i < text.len() {
        assert(rest.drop_first() =~= text.skip(i + 1));
        assert(rest[0] == text[i]);
    }
    if i + from.len() <= text.len() {
        assert(rest.subrange(0, from.len() as int) =~= text.subrange(i, i + from.len()));
        assert(rest.skip(from.len() as int) =~= text.skip(i + from.len()));
    }
    if i == text.len() {
        assert(rest.len() == 0);
    }
}

/// `text` with every match of `from`, found from the left without overlap,
/// replaced by `to` (what `str::replace` does; see [`replaced`]).
fn replace_all(text: &str, from: &str, to: &str) -> (r: String)
    ensures
        r@ == replaced(text@, from@, to@),
{
    let n = text.unicode_len();
    let m = from.unicode_len();
    let mut out = String::new();
    let mut i: usize = 0;
    assert(text@.skip(0) =~= text@);
    while i < n
        invariant
            n == text@.len(),
            m == from@.len(),
            i <= n,
            out@ + replaced(text@.skip(i as int), from@, to@) == replaced(text@, from@, to@),
        decreases n - i,
    {
        proof {
            lemma_replaced_step(text@, from@, to@, i as int);
        }
        if m == 0 {
            let c = text.get_char(i);
            let ghost before = out@;
            append_text(&mut out, to);
            push_char(&mut out, c);
            assert(out@ == before + to@ + seq![c]);
            i = i + 1;
        } else if occurs_at(text, from, i) {
            append_text(&mut out, to);
            i = i + m;
        } else {
            let c = text.get_char(i);
            push_char(&mut out, c);
            i = i + 1;
        }
    }
    proof {
        lemma_replaced_step(text@, from@, to@, n as int);
    }
    if m == 0 {
        append_text(&mut out, to);
    }
    assert(out@ + Seq::<char>::empty() =~= out@);
    out
}

/// A character that can follow `/` to start a path.
pub open spec fn path_start(c: char) -> bool {
    alphanumeric(c) || c == '_' || c == '.'
}

/// Where a path starting at `k` ends: at the first white space, or the end.
pub open spec fn path_end(s: Seq<char>, k: int) -> int
    decreases s.len() - k,
{
    if k >= s.len() {
        s.len() as int
    } else if whitespace(s[k]) {
        k
    } else {
        path_end(s, k + 1)
    }
}

/// What follows the last `/` of a path.
pub open spec fn last_segment(path: Seq<char>) -> Seq<char>
    decreases path.len(),
{
    if path.len() == 0 {
        Seq::empty()
    } else if path.last() == '/' {
        Seq::empty()
    } else {
        last_segment(path.drop_last()).push(path.last())
    }
}

/// Path redaction from position `i`, with `acc` written so far: a `/`
/// followed by a path character starts a path that runs to the next white
/// space or the end; it is written once, as `<folder>/` and its last
/// segment. Every other character, the white space after a path included,
/// is copied.
pub open spec fn redact_paths_from(s: Seq<char>, i: int, acc: Seq<char>) -> Seq<char>
    decreases s.len() - i,
{
    if i < 0 || i >= s.len() {
        acc
    } else if s[i] == '/' && i + 1 < s.len() && path_start(s[i + 1]) {
        let j = path_end(s, i + 1);
        proof {
            lemma_path_end_bounds(s, i + 1);
        }
        redact_paths_from(s, j, acc + "<folder>/"@ + last_segment(s.subrange(i, j)))
    } else {
        redact_paths_from(s, i + 1, acc.push(s[i]))
    }
}

/// Path redaction of a whole text.
pub open spec fn redacted_paths(s: Seq<char>) -> Seq<char> {
    redact_paths_from(s, 0, Seq::empty())
}

/// A `/` that starts a path occurs somewhere in the text.
pub open spec fn has_path(s: Seq<char>) -> bool {
    exists|i: int| 0 <= i && i + 1 < s.len() && #[trigger] s[i] == '/' && path_start(s[i + 1])
}

proof fn lemma_no_path_copies(s: Seq<char>, i: int, acc: Seq<char>)
    requires
        0 <= i <= s.len(),
        !has_path(s),
    ensures
        redact_paths_from(s, i, acc) == acc + s.subrange(i, s.len() as int),
    decreases s.len() - i,
{
    if i < s.len() {
        if s[i] == '/' && i + 1 < s.len() && path_start(s[i + 1]) {
            assert(has_path(s));
        }
        lemma_no_path_copies(s, i + 1, acc.push(s[i]));
        assert(acc.push(s[i]) + s.subrange(i + 1, s.len() as int) =~= acc + s.subrange(
            i,
            s.len() as int,
        ));
    } else {
        assert(acc + s.subrange(i, s.len() as int) =~= acc);
    }
}

/// A text with no path in it passes path redaction unchanged.
pub proof fn law_text_without_paths_is_unchanged(s: Seq<char>)
    requires
        !has_path(s),
    ensures
        redacted_paths(s) == s,
{
    lemma_no_path_copies(s, 0, Seq::empty());
    assert(Seq::<char>::empty() + s.subrange(0, s.len() as int) =~= s);
}

proof fn lemma_path_end_at(s: Seq<char>, k: int, j: int)
    requires
        0 <= k <= j <= s.len(),
        forall|m: int| k <= m < j ==> !whitespace(#[trigger] s[m]),
        j == s.len() || whitespace(s[j]),
    ensures
        path_end(s, k) == j,
    decreases j - k,
{
    if k < j {
        lemma_path_end_at(s, k + 1, j);
    }
}

/// Where a path ends lies between its start and the end of the text, and
/// only white space ends it.
pub proof fn lemma_path_end_bounds(s: Seq<char>, k: int)
    requires
        0 <= k,
    ensures
        k <= path_end(s, k) <= s.len() || (k > s.len() && path_end(s, k) == s.len()),
        path_end(s, k) < s.len() ==> whitespace(s[path_end(s, k)]),
        forall|m: int| k <= m < path_end(s, k) ==> !whitespace(#[trigger] s[m]),
    decreases s.len() - k,
{
    if k < s.len() && !whitespace(s[k]) {
        lemma_path_end_bounds(s, k + 1);
    }
}

/// Replaces each absolute path with `<folder>/` and its last segment,
/// keeping file names for debugging while hiding the folders.
pub fn redact_absolute_paths(s: &str) -> (r: String)
    ensures
        r@ == redacted_paths(s@),
{
    let n = s.unicode_len();
    let mut result = String::new();
    let mut i: usize = 0;
    while i < n
        invariant
            n == s@.len(),
            i <= n,
            redact_paths_from(s@, i as int, result@) == redacted_paths(s@),
        decreases n - i,
    {
        let c = s.get_char(i);
        if c == '/' && i + 1 < n && {
            let next = s.get_char(i + 1);
            is_alphanumeric(next) || next == '_' || next == '.'
        } {
            let ghost acc = result@;
            proof {
                lemma_path_end_bounds(s@, i + 1);
            }
            let mut j: usize = i + 1;
            let mut name = String::new();
            proof {
                assert(s@.subrange(i as int, i + 1) =~= seq!['/']);
                assert(seq!['/'].drop_last() =~= Seq::<char>::empty());
                assert(last_segment(seq!['/']) == Seq::<char>::empty());
            }
            while j < n && !is_whitespace(s.get_char(j))
                invariant
                    n == s@.len(),
                    i < j <= n,
                    forall|m: int| i + 1 <= m < j ==> !whitespace(#[trigger] s@[m]),
                    name@ == last_segment(s@.subrange(i as int, j as int)),
                decreases n - j,
            {
                let pc = s.get_char(j);
                let ghost before = s@.subrange(i as int, j as int);
                assert(s@.subrange(i as int, j + 1) =~= before.push(pc));
                assert(s@.subrange(i as int, j + 1).drop_last() =~= before);
                if pc == '/' {
                    name = String::new();
                } else {
                    crate::text::push_char(&mut name, pc);
                }
                j = j + 1;
            }
            proof {
                lemma_path_end_at(s@, i + 1, j as int);
            }
            let ghost name_v = name@;
            assert(name_v == last_segment(s@.subrange(i as int, j as int)));
            append_text(&mut result, "<folder>/");
            append_text(&mut result, name.as_str());
            assert(result@ =~= acc + "<folder>/"@ + name_v);
            i = j;
        } else {
            crate::text::push_char(&mut result, c);
            i = i + 1;
        }
    }
    result
}

/// Where a query ends: at white space or a quote.
pub open spec fn query_terminator(c: char) -> bool {
    whitespace(c) || c == '"' || c == '\''
}

/// Where a query starting at `k` ends: at the first white space or quote,
/// or the end.
pub open spec fn query_end(s: Seq<char>, k: int) -> int
    decreases s.len() - k,
{
    if k >= s.len() {
        s.len() as int
    } else if query_terminator(s[k]) {
        k
    } else {
        query_end(s, k + 1)
    }
}

/// Where a query ends lies between its start and the end of the text, and
/// only a terminator ends it.
pub proof fn lemma_query_end_bounds(s: Seq<char>, k: int)
    requires
        0 <= k,
    ensures
        k <= query_end(s, k) <= s.len() || (k > s.len() && query_end(s, k) == s.len()),
        query_end(s, k) < s.len() ==> query_terminator(s[query_end(s, k)]),
        forall|m: int| k <= m < query_end(s, k) ==> !query_terminator(#[trigger] s[m]),
    decreases s.len() - k,
{
    if k < s.len() && !query_terminator(s[k]) {
        lemma_query_end_bounds(s, k + 1);
    }
}

proof fn lemma_query_end_at(s: Seq<char>, k: int, j: int)
    requires
        0 <= k <= j <= s.len(),
        forall|m: int| k <= m < j ==> !query_terminator(#[trigger] s[m]),
        j == s.len() || query_terminator(s[j]),
    ensures
        query_end(s, k) == j,
    decreases j - k,
{
    if k < j {
        lemma_query_end_at(s, k + 1, j);
    }
}

fn is_query_terminator(c: char) -> (r: bool)
    ensures
        r == query_terminator(c),
{
    is_whitespace(c) || c == '"' || c == '\''
}

/// Query redaction from position `i`, with `acc` written so far: a `?`
/// followed by a query -- the characters up to the next white space, quote
/// or the end, at least one -- is written as `?<redacted query>`, and the
/// reading goes on after the query. Every other character is copied.
pub open spec fn redact_queries_from(s: Seq<char>, i: int, acc: Seq<char>) -> Seq<char>
    decreases s.len() - i,
{
    if i < 0 || i >= s.len() {
        acc
    } else if s[i] == '?' && query_end(s, i + 1) > i + 1 {
        proof {
            lemma_query_end_bounds(s, i + 1);
        }
        redact_queries_from(s, query_end(s, i + 1), acc + "?<redacted query>"@)
    } else {
        redact_queries_from(s, i + 1, acc.push(s[i]))
    }
}

/// Query redaction of a whole text.
pub open spec fn redacted_queries(s: Seq<char>) -> Seq<char> {
    redact_queries_from(s, 0, Seq::empty())
}

/// Query redaction: each `?key=value...` becomes `?<redacted query>`.
pub fn redact_url_queries(s: &str) -> (r: String)
    ensures
        r@ == redacted_queries(s@),
{
    let n = s.unicode_len();
    let mut result = String::new();
    let mut i: usize = 0;
    while i < n
        invariant
            n == s@.len(),
            i <= n,
            redact_queries_from(s@, i as int, result@) == redacted_queries(s@),
        decreases n - i,
    {
        let c = s.get_char(i);
        if c == '?' {
            proof {
                lemma_query_end_bounds(s@, i + 1);
            }
            let mut j: usize = i + 1;
            while j < n && !is_query_terminator(s.get_char(j))
                invariant
                    n == s@.len(),
                    i < j <= n,
                    forall|m: int| i + 1 <= m < j ==> !query_terminator(#[trigger] s@[m]),
                decreases n - j,
            {
                j = j + 1;
            }
            proof {
                lemma_query_end_at(s@, i + 1, j as int);
            }
            if j > i + 1 {
                append_text(&mut result, "?<redacted query>");
                i = j;
            } else {
                crate::text::push_char(&mut result, c);
                i = i + 1;
            }
        } else {
            crate::text::push_char(&mut result, c);
            i = i + 1;
        }
    }
    result
}

/// The text after the home directory is written as `<home>`.
pub open spec fn home_redacted(input: Seq<char>, home: Option<Seq<char>>) -> Seq<char> {
    match home {
        Some(h) => replaced(input, h, "<home>"@),
        None => input,
    }
}

/// The redaction of a text under `policy`: unchanged when raw paths are
/// allowed; otherwise the home directory, then every absolute path, then
/// every URL query, are hidden.
pub open spec fn redacted_text(input: Seq<char>, include_raw_paths: bool, home: Option<Seq<char>>) -> Seq<char> {
    if include_raw_paths {
        input
    } else {
        redacted_queries(redacted_paths(home_redacted(input, home)))
    }
}

/// Redacts sensitive patterns from a log or text. `home` is the home
/// directory the process knows, if any.
pub fn redact_text(input: &str, policy: &DiagnosticsPolicy, home: Option<&str>) -> (r: String)
    ensures
        r@ == redacted_text(
            input@,
            policy.include_raw_paths,
            match home {
                Some(h) => Some(h@),
                None => None,
            },
        ),
{
    if policy.include_raw_paths {
        return owned(input);
    }
    let out = match home {
        Some(h) => replace_all(input, h, "<home>"),
        None => owned(input),
    };
    let out = redact_absolute_paths(out.as_str());
    redact_url_queries(out.as_str())
}

} // verus!
