//! Canonical numbers and the rules that bring dialed digits into that form.

use crate::digits::{
    all_digits, digits_of, is_digit, just_sanitize, lemma_digits_are_ascii, lemma_digits_of_same_len,
    DigitString,
};
use vstd::prelude::*;
use vstd::string::StrSliceExecFns;
use vstd::string::StringExecFns;

verus! {

/// The area code that is put in front of a six-digit local number; it
/// carries the national trunk digit `7` with it.
pub const SIX_DIGIT_PREFIX: &'static str = "73843";

/// The digit `7` as a byte.
const ASCII_SEVEN: u8 = 0x37;

/// The digit `8` as a byte.
const ASCII_EIGHT: u8 = 0x38;

/// The characters of [`SIX_DIGIT_PREFIX`].
pub open spec fn six_digit_prefix() -> Seq<char> {
    seq!['7', '3', '8', '4', '3']
}

/// Whether `s` is a number in canonical form: a three-digit short code, or
/// eleven digits of which the first is `7`.
pub open spec fn is_canonical(s: Seq<char>) -> bool {
    &&& all_digits(s)
    &&& (s.len() == 3 || (s.len() == 11 && s[0] == '7'))
}

/// Whether digits of this shape can be brought into canonical form: three,
/// six or ten digits, or eleven digits that start with `7` or `8`.
pub open spec fn is_dialable(digits: Seq<char>) -> bool {
    ||| digits.len() == 3
    ||| digits.len() == 6
    ||| digits.len() == 10
    ||| (digits.len() == 11 && (digits[0] == '7' || digits[0] == '8'))
}

/// The canonical form of `digits`, decided by their count alone:
///
/// | digits | canonical form |
/// |---|---|
/// | 3 | unchanged |
/// | 6 | the local area code, then the digits |
/// | 10 | `7`, then the digits |
/// | 11, first `7` | unchanged |
/// | 11, first `8` | `7`, then the last ten digits |
/// | anything else | none |
pub open spec fn normalized(digits: Seq<char>) -> Option<Seq<char>> {
    if digits.len() == 3 {
        Some(digits)
    } else if digits.len() == 6 {
        Some(six_digit_prefix() + digits)
    } else if digits.len() == 10 {
        Some(seq!['7'] + digits)
    } else if digits.len() == 11 && digits[0] == '7' {
        Some(digits)
    } else if digits.len() == 11 && digits[0] == '8' {
        Some(seq!['7'] + digits.subrange(1, 11))
    } else {
        None
    }
}

/// Digits have a canonical form exactly when they are dialable.
pub proof fn lemma_normalized_some_iff_dialable(digits: Seq<char>)
    ensures
        normalized(digits) is Some <==> is_dialable(digits),
{
}

/// Eleven digits that start with `8` keep their length and their last ten
/// digits; only the first digit changes, to `7`.
pub proof fn lemma_leading_eight_becomes_seven(digits: Seq<char>)
    requires
        digits.len() == 11,
        digits[0] == '8',
    ensures
        normalized(digits) matches Some(n) && n.len() == 11 && n[0] == '7' && forall|i: int|
            1 <= i < 11 ==> n[i] == digits[i],
{
}

/// The canonical form of digits is canonical.
pub proof fn lemma_normalized_is_canonical(digits: Seq<char>)
    requires
        all_digits(digits),
    ensures
        normalized(digits) matches Some(n) ==> is_canonical(n),
{
    if normalized(digits) is Some {
        let n = normalized(digits)->0;
        assert forall|i: int| 0 <= i < n.len() implies is_digit(#[trigger] n[i]) by {}
    }
}

/// A number in canonical form.
#[derive(Debug, PartialEq, Eq)]
pub struct NationalNumber {
    text: String,
}

impl View for NationalNumber {
    type V = Seq<char>;

    closed spec fn view(&self) -> Seq<char> {
        self.text@
    }
}

impl DeepView for NationalNumber {
    type V = Seq<char>;

    open spec fn deep_view(&self) -> Seq<char> {
        self@
    }
}

impl Clone for NationalNumber {
    fn clone(&self) -> (copy: NationalNumber)
        ensures
            copy@ == self@,
    {
        proof {
            use_type_invariant(self);
        }
        NationalNumber { text: self.text.clone() }
    }
}

impl NationalNumber {
    #[verifier::type_invariant]
    spec fn well_formed(&self) -> bool {
        is_canonical(self.text@)
    }

    /// The digits as a string slice.
    pub fn as_str(&self) -> (s: &str)
        ensures
            s@ == self@,
            is_canonical(s@),
    {
        proof {
            use_type_invariant(self);
        }
        self.text.as_str()
    }

    /// Whether this is a three-digit short code.
    pub fn is_short_code(&self) -> (short: bool)
        ensures
            short == (self@.len() == 3),
    {
        proof {
            use_type_invariant(self);
            lemma_digits_are_ascii(self.text@);
            vstd::utf8::is_ascii_chars_encode_utf8(self.text@);
        }
        self.text.as_str().as_bytes().len() == 3
    }

    /// Takes digits that are in canonical form already; digits of any other
    /// shape are refused.
    pub fn from_canonical(digits: &DigitString) -> (number: Option<NationalNumber>)
        ensures
            match number {
                Some(n) => is_canonical(digits@) && n@ == digits@,
                None => !is_canonical(digits@),
            },
    {
        let text = digits.as_str();
        proof {
            lemma_digits_are_ascii(text@);
        }
        let n: usize = digits.len();
        if n == 3 || (n == 11 && text.get_ascii(0) == ASCII_SEVEN) {
            Some(NationalNumber { text: text.to_owned() })
        } else {
            None
        }
    }

    /// Takes text that is in canonical form already; any other text is
    /// refused.
    pub fn from_text(text: &str) -> (number: Option<NationalNumber>)
        ensures
            match number {
                Some(n) => is_canonical(text@) && n@ == text@,
                None => !is_canonical(text@),
            },
    {
        proof {
            lemma_digits_of_same_len(text@);
        }
        match just_sanitize(text) {
            Some(digits) => {
                if digits.len() == text.unicode_len() {
                    NationalNumber::from_canonical(&digits)
                } else {
                    None
                }
            },
            None => None,
        }
    }
}

/// Brings digits into canonical form, as [`normalized`] defines it.
pub fn normalize(digits: &DigitString) -> (number: Option<NationalNumber>)
    ensures
        number.deep_view() == normalized(digits@),
        number is Some <==> is_dialable(digits@),
{
    let text = digits.as_str();
    let n: usize = digits.len();
    proof {
        lemma_digits_are_ascii(text@);
        lemma_normalized_is_canonical(text@);
        reveal_strlit("73843");
        reveal_strlit("7");
    }
    if n == 3 {
        Some(NationalNumber { text: text.to_owned() })
    } else if n == 6 {
        let mut out = String::from_str(SIX_DIGIT_PREFIX);
        out.append(text);
        Some(NationalNumber { text: out })
    } else if n == 10 {
        let mut out = String::from_str("7");
        out.append(text);
        Some(NationalNumber { text: out })
    } else if n == 11 {
        let first: u8 = text.get_ascii(0);
        if first == ASCII_SEVEN {
            Some(NationalNumber { text: text.to_owned() })
        } else if first == ASCII_EIGHT {
            let mut out = String::from_str("7");
            out.append(text.substring_ascii(1, 11));
            Some(NationalNumber { text: out })
        } else {
            None
        }
    } else {
        None
    }
}

/// Reduces free-form input to its digits and brings them into canonical
/// form.
///
/// Returns `None` when the input holds no digit, or when its digits are not
/// dialable.
pub fn sanitize_and_normalize(raw: &str) -> (number: Option<NationalNumber>)
    ensures
        number.deep_view() == normalized(digits_of(raw@)),
{
    match just_sanitize(raw) {
        Some(digits) => normalize(&digits),
        None => None,
    }
}

} // verus!
