//! Digit strings: what remains of free-form input once everything that is
//! not an ASCII digit has been discarded.

use crate::text::push_char;
use vstd::prelude::*;
use vstd::std_specs::iter::IteratorSpec;

verus! {

/// Whether `c` is one of the ASCII digits `0` to `9`.
pub open spec fn is_digit(c: char) -> bool {
    '0' <= c <= '9'
}

/// Whether every character of `s` is an ASCII digit.
pub open spec fn all_digits(s: Seq<char>) -> bool {
    forall|i: int| 0 <= i < s.len() ==> is_digit(#[trigger] s[i])
}

/// The digits of `raw`, in their order, with every other character dropped.
pub open spec fn digits_of(raw: Seq<char>) -> Seq<char> {
    raw.filter(|c: char| is_digit(c))
}

/// What is left of `raw` once it is reduced to its digits: nothing when it
/// holds no digit.
pub open spec fn sanitized(raw: Seq<char>) -> Option<Seq<char>> {
    if digits_of(raw).len() == 0 {
        None
    } else {
        Some(digits_of(raw))
    }
}

/// Appending one character to `s` appends it to the digits of `s` when it is
/// a digit, and leaves them unchanged otherwise.
pub proof fn lemma_digits_of_push(s: Seq<char>, c: char)
    ensures
        digits_of(s.push(c)) == if is_digit(c) {
            digits_of(s).push(c)
        } else {
            digits_of(s)
        },
{
    reveal(Seq::filter);
    assert(s.push(c).drop_last() =~= s);
}

/// The digits of any input are digits.
pub proof fn lemma_digits_of_all_digits(raw: Seq<char>)
    ensures
        all_digits(digits_of(raw)),
    decreases raw.len(),
{
    reveal(Seq::filter);
    if raw.len() > 0 {
        lemma_digits_of_all_digits(raw.drop_last());
    }
}

/// Text of which nothing is dropped holds digits only, and the other way
/// round.
pub proof fn lemma_digits_of_same_len(raw: Seq<char>)
    ensures
        digits_of(raw).len() <= raw.len(),
        digits_of(raw).len() == raw.len() <==> all_digits(raw),
        all_digits(raw) ==> digits_of(raw) == raw,
    decreases raw.len(),
{
    reveal(Seq::filter);
    if raw.len() > 0 {
        let init = raw.drop_last();
        lemma_digits_of_same_len(init);
        if digits_of(raw).len() == raw.len() {
            assert forall|i: int| 0 <= i < raw.len() implies is_digit(#[trigger] raw[i]) by {
                if i < init.len() {
                    assert(init[i] == raw[i]);
                }
            }
        }
    }
}

/// A non-empty string of ASCII digits.
#[derive(Debug, PartialEq, Eq)]
pub struct DigitString {
    text: String,
}

impl View for DigitString {
    type V = Seq<char>;

    closed spec fn view(&self) -> Seq<char> {
        self.text@
    }
}

impl DeepView for DigitString {
    type V = Seq<char>;

    open spec fn deep_view(&self) -> Seq<char> {
        self@
    }
}

impl Clone for DigitString {
    fn clone(&self) -> (copy: DigitString)
        ensures
            copy@ == self@,
    {
        proof {
            use_type_invariant(self);
        }
        DigitString { text: self.text.clone() }
    }
}

impl DigitString {
    #[verifier::type_invariant]
    spec fn well_formed(&self) -> bool {
        self.text@.len() > 0 && all_digits(self.text@)
    }

    /// The digits as a string slice.
    pub fn as_str(&self) -> (s: &str)
        ensures
            s@ == self@,
            s@.len() > 0,
            all_digits(s@),
    {
        proof {
            use_type_invariant(self);
        }
        self.text.as_str()
    }

    /// The number of digits.
    pub fn len(&self) -> (n: usize)
        ensures
            n == self@.len(),
    {
        proof {
            use_type_invariant(self);
            lemma_digits_are_ascii(self.text@);
            vstd::utf8::is_ascii_chars_encode_utf8(self.text@);
        }
        self.text.as_str().as_bytes().len()
    }
}

/// Digits are ASCII characters.
pub proof fn lemma_digits_are_ascii(s: Seq<char>)
    requires
        all_digits(s),
    ensures
        vstd::utf8::is_ascii_chars(s),
{
}

/// Reduces free-form input to its digits.
///
/// Returns the digits of `raw` in their order, or `None` when `raw` holds no
/// digit at all. However many digits there are, all of them are kept.
pub fn just_sanitize(raw: &str) -> (digits: Option<DigitString>)
    ensures
        digits.deep_view() == sanitized(raw@),
{
    let mut text = String::new();
    for c in it: raw.chars()
        invariant
            it.seq() == raw@,
            text@ == digits_of(it.seq().take(it.index())),
    {
        proof {
            let seen = it.seq().take(it.index());
            assert(it.seq().take(it.index() + 1) =~= seen.push(c));
            lemma_digits_of_push(seen, c);
        }
        if '0' <= c && c <= '9' {
            push_char(&mut text, c);
        }
    }
    assert(raw@.take(raw@.len() as int) =~= raw@);
    if text.as_str().is_empty() {
        None
    } else {
        proof {
            lemma_digits_of_all_digits(raw@);
        }
        Some(DigitString { text })
    }
}

} // verus!
