//! Small text operations on `str` and `String`, stated over their `Seq<char>`
//! views.

use vstd::prelude::*;
use vstd::string::*;

verus! {

broadcast use vstd::string::group_string_axioms;

/// The Unicode lowercase mapping of a text, as `str::to_lowercase` computes
/// it.
pub uninterp spec fn lowercase(text: Seq<char>) -> Seq<char>;

/// Calls `str::to_lowercase`. Claimed: the result depends on the text alone
/// (it is the Unicode lowercase mapping, which `lowercase` names).
#[verifier::external_body]
pub(crate) fn to_lowercase(text: &str) -> (r: String)
    ensures
        r@ == lowercase(text@),
{
    text.to_lowercase()
}

/// Calls `String::push`. Claimed: the character is appended at the end and
/// nothing else changes, as its documentation states.
#[verifier::external_body]
pub(crate) fn push_char(target: &mut String, c: char)
    ensures
        final(target)@ == old(target)@.push(c),
{
    target.push(c);
}

/// Whether a character has the Unicode `White_Space` property, which is
/// what `char::is_whitespace` answers: U+0009 to U+000D, U+0020, U+0085,
/// U+00A0, U+1680, U+2000 to U+200A, U+2028, U+2029, U+202F, U+205F and
/// U+3000.
pub open spec fn whitespace(c: char) -> bool {
    let u = c as u32;
    ||| 0x9 <= u <= 0xD
    ||| u == 0x20
    ||| u == 0x85
    ||| u == 0xA0
    ||| u == 0x1680
    ||| 0x2000 <= u <= 0x200A
    ||| u == 0x2028
    ||| u == 0x2029
    ||| u == 0x202F
    ||| u == 0x205F
    ||| u == 0x3000
}

/// Whether a character has the Unicode `White_Space` property (what
/// `char::is_whitespace` answers).
pub(crate) fn is_whitespace(c: char) -> (r: bool)
    ensures
        r == whitespace(c),
{
    let u = c as u32;
    (0x9 <= u && u <= 0xD) || u == 0x20 || u == 0x85 || u == 0xA0 || u == 0x1680 || (0x2000 <= u
        && u <= 0x200A) || u == 0x2028 || u == 0x2029 || u == 0x202F || u == 0x205F || u == 0x3000
}

/// A new `String` holding the given text.
pub fn owned(text: &str) -> (r: String)
    ensures
        r@ == text@,
{
    text.to_owned()
}

/// Appends `text` to `target`.
pub fn append_text(target: &mut String, text: &str)
    ensures
        final(target)@ == old(target)@ + text@,
{
    target.append(text);
}

/// Whether two texts hold the same characters.
pub fn text_equal(left: &str, right: &str) -> (r: bool)
    ensures
        r == (left@ == right@),
{
    let n = left.unicode_len();
    let m = right.unicode_len();
    if n != m {
        return false;
    }
    let mut i: usize = 0;
    while i < n
        invariant
            n == left@.len(),
            m == right@.len(),
            n == m,
            i <= n,
            forall|j: int| 0 <= j < i ==> left@[j] == right@[j],
        decreases n - i,
    {
        if left.get_char(i) != right.get_char(i) {
            assert(left@[i as int] != right@[i as int]);
            return false;
        }
        i = i + 1;
    }
    assert(left@ =~= right@);
    true
}

/// Whether `text` begins with `prefix`.
pub fn starts_with_text(text: &str, prefix: &str) -> (r: bool)
    ensures
        r == (prefix@.len() <= text@.len() && text@.subrange(0, prefix@.len() as int) == prefix@),
{
    let n = text.unicode_len();
    let m = prefix.unicode_len();
    if m > n {
        return false;
    }
    let mut i: usize = 0;
    while i < m
        invariant
            n == text@.len(),
            m == prefix@.len(),
            m <= n,
            i <= m,
            forall|j: int| 0 <= j < i ==> text@[j] == prefix@[j],
        decreases m - i,
    {
        if text.get_char(i) != prefix.get_char(i) {
            assert(text@.subrange(0, m as int)[i as int] != prefix@[i as int]);
            return false;
        }
        i = i + 1;
    }
    assert(text@.subrange(0, m as int) =~= prefix@);
    true
}

/// The characters of `text` from `from` to its end, as a new `String`.
pub fn suffix_from(text: &str, from: usize) -> (r: String)
    requires
        from <= text@.len(),
    ensures
        r@ == text@.subrange(from as int, text@.len() as int),
{
    let n = text.unicode_len();
    text.substring_char(from, n).to_owned()
}

/// `char::to_ascii_lowercase`: `A` to `Z` become `a` to `z`; every other
/// character stays.
pub open spec fn ascii_lower_char(c: char) -> char {
    if 65 <= (c as u32) <= 90 {
        ((c as u32) + 32) as char
    } else {
        c
    }
}

/// `str::to_ascii_lowercase`, character by character.
pub open spec fn ascii_lower(text: Seq<char>) -> Seq<char> {
    text.map_values(|c: char| ascii_lower_char(c))
}

/// `str::to_ascii_lowercase`.
pub fn ascii_lowercase(text: &str) -> (r: String)
    ensures
        r@ == ascii_lower(text@),
{
    let n = text.unicode_len();
    let mut out = String::new();
    let mut k: usize = 0;
    while k < n
        invariant
            n == text@.len(),
            k <= n,
            out@ == ascii_lower(text@.subrange(0, k as int)),
        decreases n - k,
    {
        let c = text.get_char(k);
        let lower = if 65 <= (c as u32) && (c as u32) <= 90 {
            ((c as u8) + 32) as char
        } else {
            c
        };
        assert(lower == ascii_lower_char(c));
        push_char(&mut out, lower);
        assert(ascii_lower(text@.subrange(0, k + 1)) =~= ascii_lower(text@.subrange(0, k as int)).push(
            ascii_lower_char(text@[k as int]),
        ));
        k = k + 1;
    }
    assert(text@.subrange(0, n as int) =~= text@);
    out
}

/// `text` without its leading white space.
pub open spec fn trim_front(text: Seq<char>) -> Seq<char>
    decreases text.len(),
{
    if text.len() > 0 && whitespace(text[0]) {
        trim_front(text.drop_first())
    } else {
        text
    }
}

/// `text` without its trailing white space.
pub open spec fn trim_back(text: Seq<char>) -> Seq<char>
    decreases text.len(),
{
    if text.len() > 0 && whitespace(text.last()) {
        trim_back(text.drop_last())
    } else {
        text
    }
}

/// `str::trim`: `text` without leading and trailing white space.
pub open spec fn trimmed(text: Seq<char>) -> Seq<char> {
    trim_back(trim_front(text))
}

/// `str::trim`, as a new `String`.
pub fn trim_text(text: &str) -> (r: String)
    ensures
        r@ == trimmed(text@),
{
    let n = text.unicode_len();
    let mut a: usize = 0;
    assert(text@.subrange(0, n as int) =~= text@);
    while a < n && is_whitespace(text.get_char(a))
        invariant
            n == text@.len(),
            a <= n,
            trim_front(text@) == trim_front(text@.subrange(a as int, n as int)),
        decreases n - a,
    {
        assert(text@.subrange(a as int, n as int)[0] == text@[a as int]);
        assert(text@.subrange(a as int, n as int).drop_first() =~= text@.subrange(a + 1, n as int));
        a = a + 1;
    }
    let ghost front = text@.subrange(a as int, n as int);
    assert(trim_front(front) == front) by {
        if front.len() > 0 {
            assert(front[0] == text@[a as int]);
        }
    }
    let mut b: usize = n;
    assert(front.subrange(0, (b - a) as int) =~= front);
    while b > a && is_whitespace(text.get_char(b - 1))
        invariant
            n == text@.len(),
            a <= b <= n,
            front == text@.subrange(a as int, n as int),
            trim_back(front) == trim_back(front.subrange(0, (b - a) as int)),
        decreases b,
    {
        let ghost part = front.subrange(0, (b - a) as int);
        assert(part.last() == text@[b - 1]);
        assert(part.drop_last() =~= front.subrange(0, (b - 1 - a) as int));
        b = b - 1;
    }
    let ghost kept = front.subrange(0, (b - a) as int);
    assert(trim_back(kept) == kept) by {
        if kept.len() > 0 {
            assert(kept.last() == text@[b - 1]);
        }
    }
    assert(kept =~= text@.subrange(a as int, b as int));
    let r = text.substring_char(a, b).to_owned();
    r
}

/// `str::eq_ignore_ascii_case`: equal once both are ASCII-lowercased.
pub fn eq_ignore_ascii_case(left: &str, right: &str) -> (r: bool)
    ensures
        r == (ascii_lower(left@) == ascii_lower(right@)),
{
    let l = ascii_lowercase(left);
    let g = ascii_lowercase(right);
    text_equal(l.as_str(), g.as_str())
}

} // verus!
