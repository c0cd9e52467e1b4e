//! Comparisons on text, character by character.

use vstd::prelude::*;

verus! {

/// The characters of `s`, in order.
pub fn chars_of(s: &str) -> (chars: Vec<char>)
    ensures
        chars@ == s@,
{
    let mut chars: Vec<char> = Vec::new();
    for c in it: s.chars()
        invariant
            it.seq() == s@,
            chars@ == it.seq().take(it.index()),
    {
        chars.push(c);
    }
    chars
}

/// Whether `text` begins with `pattern`.
pub fn starts_with(text: &Vec<char>, pattern: &str) -> (found: bool)
    ensures
        found == pattern@.is_prefix_of(text@),
{
    let pat = chars_of(pattern);
    if pat.len() > text.len() {
        return false;
    }
    let mut i: usize = 0;
    while i < pat.len()
        invariant
            i <= pat.len() <= text.len(),
            pat@ == pattern@,
            forall|j: int| 0 <= j < i ==> text@[j] == pat@[j],
        decreases pat.len() - i,
    {
        if text[i] != pat[i] {
            assert(text@.subrange(0, pat@.len() as int)[i as int] == text@[i as int]);
            return false;
        }
        i += 1;
    }
    assert(pat@ =~= text@.subrange(0, pat@.len() as int));
    true
}

/// Whether `text` ends with `pattern`.
pub fn ends_with(text: &Vec<char>, pattern: &str) -> (found: bool)
    ensures
        found == pattern@.is_suffix_of(text@),
{
    let pat = chars_of(pattern);
    if pat.len() > text.len() {
        return false;
    }
    let skip: usize = text.len() - pat.len();
    let ghost tail = text@.subrange(skip as int, text@.len() as int);
    let mut i: usize = 0;
    while i < pat.len()
        invariant
            i <= pat.len() <= text.len(),
            skip == text.len() - pat.len(),
            pat@ == pattern@,
            tail == text@.subrange(skip as int, text@.len() as int),
            forall|j: int| 0 <= j < i ==> text@[skip + j] == pat@[j],
        decreases pat.len() - i,
    {
        if text[skip + i] != pat[i] {
            assert(tail[i as int] == text@[skip + i]);
            return false;
        }
        i += 1;
    }
    assert(pat@ =~= tail);
    true
}

/// Whether `text` is exactly `pattern`.
pub fn same_text(text: &Vec<char>, pattern: &str) -> (same: bool)
    ensures
        same == (text@ == pattern@),
{
    let pat = chars_of(pattern);
    if pat.len() != text.len() {
        return false;
    }
    let found = starts_with(text, pattern);
    assert(found ==> text@ =~= pattern@);
    found
}

} // verus!
