//! Character classes, case-insensitive comparison, and scanning for the
//! last occurrence of a character — shared by the answer parser, the
//! path functions and the file browser.

use vstd::prelude::*;

verus! {

/// An ASCII whitespace character.
pub open spec fn spec_is_space(c: char) -> bool {
    c == ' ' || c == '\t' || c == '\n' || c == '\r'
}

pub fn is_space_char(c: char) -> (r: bool)
    ensures
        r == spec_is_space(c),
{
    c == ' ' || c == '\t' || c == '\n' || c == '\r'
}

/// `c` equals `l` up to ASCII case, where `l` is the lower-case form:
/// either `c` is `l` itself, or `l` is a lower-case letter and `c` its
/// upper-case form.
pub open spec fn spec_eq_ci(c: char, l: char) -> bool {
    c == l || (97 <= l as u32 <= 122 && c as u32 + 32 == l as u32)
}

/// Case-insensitive comparison against a known letter, given as its
/// lower- and upper-case forms (equal for characters without case).
pub fn eq_ci_char(c: char, lower: char, upper: char) -> (r: bool)
    requires
        (97 <= lower as u32 <= 122 && lower as u32 == upper as u32 + 32) || (lower == upper && !(97
            <= lower as u32 <= 122)),
    ensures
        r == spec_eq_ci(c, lower),
{
    c == lower || c == upper
}

/// The index of the last occurrence of `c` in `s`, `-1` when absent.
pub open spec fn spec_last_index_of(s: Seq<char>, c: char) -> int
    decreases s.len(),
{
    if s.len() == 0 {
        -1
    } else if s.last() == c {
        s.len() - 1
    } else {
        spec_last_index_of(s.drop_last(), c)
    }
}

/// Scan `s` backwards from `until` for the last occurrence of `c`.
pub fn last_index_upto(s: &str, until: usize, c: char) -> (r: Option<usize>)
    requires
        until <= s@.len(),
    ensures
        match r {
            Option::Some(i) => i < until && s@[i as int] == c && (forall|k: int|
                i < k < until ==> s@[k] != c),
            Option::None => forall|k: int| 0 <= k < until ==> s@[k] != c,
        },
    decreases until,
{
    if until == 0 {
        None
    } else {
        let ch = s.get_char(until - 1);
        if ch == c {
            Some(until - 1)
        } else {
            last_index_upto(s, until - 1, c)
        }
    }
}

/// A scan that found `c` last at `i` (or nowhere, `i == -1`) pins down
/// `spec_last_index_of`.
pub proof fn lemma_last_index_char(s: Seq<char>, c: char, i: int)
    requires
        -1 <= i < s.len(),
        i >= 0 ==> s[i] == c,
        forall|k: int| i < k < s.len() ==> s[k] != c,
    ensures
        spec_last_index_of(s, c) == i,
    decreases s.len(),
{
    if s.len() == 0 {
    } else if s.last() == c {
        assert(i == s.len() - 1);
    } else {
        assert(i < s.len() - 1);
        lemma_last_index_char(s.drop_last(), c, i);
    }
}

} // verus!
