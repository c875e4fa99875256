//! Small verified operations on text.

use vstd::prelude::*;
use vstd::string::*;

verus! {

/// The characters of each text.
pub open spec fn texts(names: Seq<String>) -> Seq<Seq<char>> {
    Seq::new(names.len(), |i: int| names[i]@)
}

/// Whether `a` and `b` hold the same characters.
pub fn same_text(a: &str, b: &str) -> (yes: bool)
    ensures
        yes == (a@ == b@),
{
    let n = a.unicode_len();
    if b.unicode_len() != n {
        return false;
    }
    let mut i: usize = 0;
    while i < n
        invariant
            n == a@.len(),
            n == b@.len(),
            i <= n,
            forall|j: int| 0 <= j < i ==> a@[j] == b@[j],
        decreases n - i,
    {
        if a.get_char(i) != b.get_char(i) {
            return false;
        }
        i += 1;
    }
    assert(a@ =~= b@);
    true
}

/// Whether `prefix` stands at the start of `text`.
pub fn starts_with(text: &str, prefix: &str) -> (yes: bool)
    ensures
        yes == prefix@.is_prefix_of(text@),
{
    let n = prefix.unicode_len();
    if text.unicode_len() < n {
        return false;
    }
    let mut i: usize = 0;
    while i < n
        invariant
            n == prefix@.len(),
            n <= text@.len(),
            i <= n,
            forall|j: int| 0 <= j < i ==> text@[j] == prefix@[j],
        decreases n - i,
    {
        if text.get_char(i) != prefix.get_char(i) {
            return false;
        }
        i += 1;
    }
    true
}

/// A character with its case folded: an upper-case ASCII letter becomes the
/// lower-case one, every other character stays.
pub open spec fn folded(c: char) -> char {
    if 'A' <= c && c <= 'Z' {
        ((c as u8) + 32) as char
    } else {
        c
    }
}

/// Whether `needle` stands in `text` at `at`, case folded.
pub open spec fn matches_at(text: Seq<char>, needle: Seq<char>, at: int) -> bool {
    &&& 0 <= at
    &&& at + needle.len() <= text.len()
    &&& forall|j: int| 0 <= j < needle.len() ==> folded(#[trigger] text[at + j]) == folded(needle[j])
}

/// Whether `needle` stands somewhere in `text`, case folded.
pub open spec fn contains_folded(text: Seq<char>, needle: Seq<char>) -> bool {
    exists|at: int| matches_at(text, needle, at)
}

/// Folds the case of one character: see [`folded`].
pub fn fold_char(c: char) -> (r: char)
    ensures
        r == folded(c),
{
    if 'A' <= c && c <= 'Z' {
        ((c as u8) + 32) as char
    } else {
        c
    }
}

/// Whether `needle` stands in `text` at `at`, case folded.
fn found_at(text: &str, needle: &str, at: usize) -> (yes: bool)
    requires
        at + needle@.len() <= text@.len(),
    ensures
        yes == matches_at(text@, needle@, at as int),
{
    let n = needle.unicode_len();
    let len = text.unicode_len();
    let mut j: usize = 0;
    while j < n
        invariant
            n == needle@.len(),
            len == text@.len(),
            at + n <= len,
            j <= n,
            forall|k: int| 0 <= k < j ==> folded(#[trigger] text@[at + k]) == folded(needle@[k]),
        decreases n - j,
    {
        if fold_char(text.get_char(at + j)) != fold_char(needle.get_char(j)) {
            return false;
        }
        j += 1;
    }
    true
}

/// Whether `needle` stands somewhere in `text`, when upper and lower case
/// ASCII letters count as the same.
pub fn contains_ignoring_case(text: &str, needle: &str) -> (yes: bool)
    ensures
        yes == contains_folded(text@, needle@),
{
    let n = needle.unicode_len();
    let len = text.unicode_len();
    if len < n {
        return false;
    }
    let last = len - n;
    let mut at: usize = 0;
    while at <= last
        invariant
            n == needle@.len(),
            len == text@.len(),
            last == len - n,
            at <= last + 1,
            forall|k: int| 0 <= k < at ==> !matches_at(text@, needle@, k),
        decreases last + 1 - at,
    {
        if found_at(text, needle, at) {
            return true;
        }
        at += 1;
    }
    false
}

} // verus!
