//! Small helpers on text.

use vstd::prelude::*;
use vstd::std_specs::iter::IteratorSpec;
use vstd::string::StrSliceExecFns;
use vstd::string::StringSliceAdditionalSpecFns;

verus! {

/// `String::push`: the character is appended to the end.
#[verifier::external_body]
pub(crate) fn push_char(s: &mut String, c: char)
    ensures
        final(s)@ == old(s)@.push(c),
{
    s.push(c)
}

/// Whether `c` is whitespace, as `char::is_whitespace` tells it.
pub uninterp spec fn is_whitespace(c: char) -> bool;

/// `char::is_whitespace`: whether the character is whitespace. Which
/// characters are is left to the standard library.
#[verifier::external_body]
fn whitespace(c: char) -> (white: bool)
    ensures
        white == is_whitespace(c),
{
    c.is_whitespace()
}

/// Whether the first character of `s` that is no whitespace stands at `at`.
pub open spec fn first_solid_at(s: Seq<char>, at: int) -> bool {
    &&& 0 <= at < s.len()
    &&& !is_whitespace(s[at])
    &&& forall|k: int| 0 <= k < at ==> is_whitespace(#[trigger] s[k])
}

/// Whether the last character of `s` that is no whitespace stands at `at`.
pub open spec fn last_solid_at(s: Seq<char>, at: int) -> bool {
    &&& 0 <= at < s.len()
    &&& !is_whitespace(s[at])
    &&& forall|k: int| at < k < s.len() ==> is_whitespace(#[trigger] s[k])
}

/// The text without the whitespace at its two ends: what stands from its
/// first to its last character that is no whitespace, and nothing where
/// there is no such character.
pub open spec fn trimmed(s: Seq<char>) -> Seq<char> {
    if exists|at: int| first_solid_at(s, at) {
        let first = choose|at: int| first_solid_at(s, at);
        let last = choose|at: int| last_solid_at(s, at);
        s.subrange(first, last + 1)
    } else {
        Seq::empty()
    }
}

/// A text has its first and its last character that is no whitespace at one
/// place each.
pub proof fn lemma_solid_ends_unique(s: Seq<char>, first: int, last: int)
    requires
        first_solid_at(s, first),
        last_solid_at(s, last),
    ensures
        first <= last,
        trimmed(s) == s.subrange(first, last + 1),
{
}

/// A text of whitespace only, and an empty one, is trimmed to nothing.
pub proof fn lemma_trimmed_whitespace(s: Seq<char>)
    requires
        forall|k: int| 0 <= k < s.len() ==> is_whitespace(#[trigger] s[k]),
    ensures
        trimmed(s) == Seq::<char>::empty(),
{
}

/// A text with a character that is no whitespace is not trimmed to nothing.
pub proof fn lemma_trimmed_solid(s: Seq<char>, at: int)
    requires
        0 <= at < s.len(),
        !is_whitespace(s[at]),
    ensures
        trimmed(s).len() > 0,
    decreases at,
{
    if exists|k: int| 0 <= k < at && !is_whitespace(#[trigger] s[k]) {
        let k = choose|k: int| 0 <= k < at && !is_whitespace(#[trigger] s[k]);
        lemma_trimmed_solid(s, k);
    } else {
        lemma_last_solid_exists(s, at, s.len() - 1);
        let last = choose|last: int| last_solid_at(s, last);
        lemma_solid_ends_unique(s, at, last);
    }
}

/// Where a text has a character that is no whitespace, it has a last one.
proof fn lemma_last_solid_exists(s: Seq<char>, at: int, from: int)
    requires
        0 <= at <= from < s.len(),
        !is_whitespace(s[at]),
        forall|k: int| from < k < s.len() ==> is_whitespace(#[trigger] s[k]),
    ensures
        exists|last: int| last_solid_at(s, last),
    decreases from - at,
{
    if !is_whitespace(s[from]) {
        assert(last_solid_at(s, from));
    } else {
        lemma_last_solid_exists(s, at, from - 1);
    }
}

/// Takes the whitespace off the two ends of a text, as [`trimmed`] defines
/// it.
pub fn trim(s: &str) -> (t: &str)
    ensures
        t@ == trimmed(s@),
{
    let len: usize = s.unicode_len();
    let mut first: usize = 0;
    let mut end: usize = 0;
    let mut at: usize = 0;
    for c in it: s.chars()
        invariant
            it.seq() == s@,
            s@.len() == len,
            at == it.index(),
            end <= at,
            end == 0 ==> forall|k: int| 0 <= k < at ==> is_whitespace(#[trigger] s@[k]),
            end > 0 ==> first < end && first_solid_at(s@, first as int) && !is_whitespace(
                s@[end - 1],
            ) && forall|k: int| end <= k < at ==> is_whitespace(#[trigger] s@[k]),
    {
        if !whitespace(c) {
            if end == 0 {
                first = at;
            }
            end = at + 1;
        }
        at = at + 1;
    }
    if end == 0 {
        proof {
            lemma_trimmed_whitespace(s@);
        }
        s.substring_char(0, 0)
    } else {
        proof {
            lemma_solid_ends_unique(s@, first as int, end - 1);
        }
        s.substring_char(first, end)
    }
}

/// Whether the first colon of `s` stands at `at`.
pub open spec fn first_colon_at(s: Seq<char>, at: int) -> bool {
    &&& 0 <= at < s.len()
    &&& s[at] == ':'
    &&& forall|k: int| 0 <= k < at ==> s[k] != ':'
}

/// The two parts of `s` before and after its first colon; none when `s`
/// holds no colon.
pub open spec fn split_at_colon(s: Seq<char>) -> Option<(Seq<char>, Seq<char>)> {
    if exists|at: int| first_colon_at(s, at) {
        let at = choose|at: int| first_colon_at(s, at);
        Some((s.take(at), s.skip(at + 1)))
    } else {
        None
    }
}

/// A text has its first colon at one place only.
pub proof fn lemma_first_colon_unique(s: Seq<char>, a: int, b: int)
    requires
        first_colon_at(s, a),
        first_colon_at(s, b),
    ensures
        a == b,
{
}

/// Splits a text at its first colon, as [`split_at_colon`] defines it.
pub fn split_once_at_colon(s: &str) -> (parts: Option<(&str, &str)>)
    ensures
        match parts {
            Some((before, after)) => split_at_colon(s@) == Some((before@, after@)),
            None => split_at_colon(s@) is None,
        },
{
    let len: usize = s.unicode_len();
    let mut at: usize = 0;
    let mut found = false;
    for c in it: s.chars()
        invariant
            it.seq() == s@,
            s@.len() == len,
            !found ==> at == it.index(),
            !found ==> forall|k: int| 0 <= k < it.index() ==> s@[k] != ':',
            found ==> first_colon_at(s@, at as int),
    {
        if !found {
            if c == ':' {
                found = true;
            } else {
                at = at + 1;
            }
        }
    }
    if found {
        proof {
            let chosen = choose|k: int| first_colon_at(s@, k);
            lemma_first_colon_unique(s@, at as int, chosen);
        }
        let before = s.substring_char(0, at);
        let after = s.substring_char(at + 1, len);
        Some((before, after))
    } else {
        None
    }
}

/// Whether two texts are the same, character by character.
pub fn same_text(a: &str, b: &str) -> (same: bool)
    ensures
        same == (a@ == b@),
{
    let x = a.as_bytes();
    let y = b.as_bytes();
    if x.len() != y.len() {
        return false;
    }
    let mut i: usize = 0;
    while i < x.len()
        invariant
            i <= x@.len(),
            x@.len() == y@.len(),
            x@ == a.spec_bytes(),
            y@ == b.spec_bytes(),
            forall|k: int| 0 <= k < i ==> x@[k] == y@[k],
        decreases x@.len() - i,
    {
        if x[i] != y[i] {
            return false;
        }
        i += 1;
    }
    proof {
        assert(x@ =~= y@);
        vstd::utf8::encode_utf8_decode_utf8(a@);
        vstd::utf8::encode_utf8_decode_utf8(b@);
    }
    true
}

} // verus!
