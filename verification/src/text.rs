//! Text helpers: lossy decoding, lowercasing, the characters of a string and
//! substring search over characters.

use vstd::prelude::*;

verus! {

/// `needle` occurs in `text` starting at position `at`.
pub open spec fn occurs_at(text: Seq<char>, needle: Seq<char>, at: int) -> bool {
    &&& 0 <= at
    &&& at + needle.len() <= text.len()
    &&& text.subrange(at, at + needle.len()) == needle
}

/// `needle` occurs somewhere in `text` as a contiguous run of characters.
pub open spec fn has_substring(text: Seq<char>, needle: Seq<char>) -> bool {
    exists|at: int| occurs_at(text, needle, at)
}

/// The text that `String::from_utf8_lossy` decodes from `bytes`: valid UTF-8
/// is decoded as it is, every invalid sequence becomes U+FFFD.
pub uninterp spec fn lossy_text(bytes: Seq<u8>) -> Seq<char>;

/// The text that `str::to_lowercase` makes of `text`, by Unicode's lowercase
/// mapping.
pub uninterp spec fn lowercase_text(text: Seq<char>) -> Seq<char>;

/// Decodes `bytes` as text and never fails.
///
/// Trusted: calls `String::from_utf8_lossy`. The contract only says that the
/// result is the function's value on these bytes, under the name
/// [`lossy_text`].
#[verifier::external_body]
pub(crate) fn decode_lossy(bytes: &[u8]) -> (text: String)
    ensures
        text@ == lossy_text(bytes@),
{
    String::from_utf8_lossy(bytes).into_owned()
}

/// Lowercases `text`.
///
/// Trusted: calls `str::to_lowercase`. The contract only says that the result
/// is the function's value on this text, under the name [`lowercase_text`].
#[verifier::external_body]
pub(crate) fn lowercase(text: &str) -> (lowered: String)
    ensures
        lowered@ == lowercase_text(text@),
{
    text.to_lowercase()
}

/// The characters of `s`, in order.
pub fn chars_of(s: &str) -> (chars: Vec<char>)
    ensures
        chars@ == s@,
{
    let mut chars: Vec<char> = Vec::new();
    for c in it: s.chars()
        invariant
            chars@ == it.seq().take(it.index()),
            it.seq() == s@,
    {
        chars.push(c);
    }
    chars
}

/// Whether `needle` stands in `text` at position `at`.
pub fn matches_at(text: &[char], needle: &[char], at: usize) -> (found: bool)
    ensures
        found == occurs_at(text@, needle@, at as int),
{
    let n: usize = needle.len();
    let len: usize = text.len();
    if n > len || at > len - n {
        return false;
    }
    let mut j: usize = 0;
    while j < n
        invariant
            n == needle@.len(),
            len == text@.len(),
            j <= n,
            at + n <= len,
            forall|k: int| 0 <= k < j ==> text@[at + k] == needle@[k],
        decreases n - j,
    {
        if text[at + j] != needle[j] {
            assert(text@.subrange(at as int, at + n)[j as int] != needle@[j as int]);
            return false;
        }
        j += 1;
    }
    assert(text@.subrange(at as int, at + n) =~= needle@);
    true
}

/// The first position at which `needle` occurs in `text`, if it occurs at all.
pub fn find_chars(text: &[char], needle: &[char]) -> (found: Option<usize>)
    ensures
        found is Some <==> has_substring(text@, needle@),
        found matches Some(at) ==> occurs_at(text@, needle@, at as int) && forall|k: int|
            0 <= k < at ==> !occurs_at(text@, needle@, k),
{
    if needle.len() > text.len() {
        return None;
    }
    let last: usize = text.len() - needle.len();
    let mut at: usize = 0;
    while at < last
        invariant
            at <= last,
            last + needle@.len() == text@.len(),
            forall|k: int| 0 <= k < at ==> !occurs_at(text@, needle@, k),
        decreases last - at,
    {
        if matches_at(text, needle, at) {
            return Some(at);
        }
        at += 1;
    }
    if matches_at(text, needle, last) {
        Some(last)
    } else {
        None
    }
}

/// Whether `needle` occurs in `text`.
pub fn contains_chars(text: &[char], needle: &[char]) -> (found: bool)
    ensures
        found == has_substring(text@, needle@),
{
    find_chars(text, needle).is_some()
}

} // verus!
