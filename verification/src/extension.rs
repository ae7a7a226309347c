//! Extensions: the three-digit numbers of the internal stations.

use crate::digits::{
    all_digits, is_digit, just_sanitize, lemma_digits_are_ascii, lemma_digits_of_same_len,
    DigitString,
};
use crate::text::push_char;
use vstd::prelude::*;
use vstd::string::StrSliceExecFns;

verus! {

/// The digit `0` as a byte.
const ASCII_ZERO: u8 = 0x30;

/// Whether `s` is written as an extension is written: exactly three
/// digits.
pub open spec fn is_extension_text(s: Seq<char>) -> bool {
    s.len() == 3 && all_digits(s)
}

/// The value of the digit `c`.
pub open spec fn digit_value(c: char) -> int {
    c as int - '0' as int
}

/// The digit whose value is `d`.
pub open spec fn digit_char(d: int) -> char {
    (d + '0' as int) as char
}

/// The number that the three digits of `s` spell.
pub open spec fn extension_value(s: Seq<char>) -> int {
    100 * digit_value(s[0]) + 10 * digit_value(s[1]) + digit_value(s[2])
}

/// The three digits that spell `n`, with leading zeros.
pub open spec fn extension_text(n: int) -> Seq<char> {
    seq![digit_char(n / 100), digit_char((n / 10) % 10), digit_char(n % 10)]
}

/// Reading three digits and writing the number back gives the same digits.
pub proof fn lemma_extension_text_of_value(s: Seq<char>)
    requires
        is_extension_text(s),
    ensures
        0 <= extension_value(s) < 1000,
        extension_text(extension_value(s)) == s,
{
}

/// Writing a number below 1000 and reading the digits back gives the same
/// number.
pub proof fn lemma_extension_value_of_text(n: int)
    requires
        0 <= n < 1000,
    ensures
        is_extension_text(extension_text(n)),
        extension_value(extension_text(n)) == n,
{
}

/// The number of an internal station, from 0 to 999.
#[derive(Clone, Copy, Debug, PartialEq, Eq)]
pub struct Extension {
    number: u16,
}

impl View for Extension {
    type V = int;

    closed spec fn view(&self) -> int {
        self.number as int
    }
}

impl DeepView for Extension {
    type V = int;

    open spec fn deep_view(&self) -> int {
        self@
    }
}

impl Extension {
    #[verifier::type_invariant]
    spec fn well_formed(&self) -> bool {
        self.number < 1000
    }

    /// The extension with the given number, if that is below 1000.
    pub fn new(number: u16) -> (extension: Option<Extension>)
        ensures
            match extension {
                Some(e) => e@ == number && number < 1000,
                None => number >= 1000,
            },
    {
        if number < 1000 {
            Some(Extension { number })
        } else {
            None
        }
    }

    /// The station's number.
    pub fn number(self) -> (number: u16)
        ensures
            number == self@,
            number < 1000,
    {
        proof {
            use_type_invariant(self);
        }
        self.number
    }

    /// Reads an extension from digits: exactly three are an extension, any
    /// other count is none.
    pub fn from_digits(digits: &DigitString) -> (extension: Option<Extension>)
        ensures
            match extension {
                Some(e) => is_extension_text(digits@) && e@ == extension_value(digits@),
                None => !is_extension_text(digits@),
            },
    {
        let text = digits.as_str();
        if digits.len() != 3 {
            return None;
        }
        proof {
            lemma_digits_are_ascii(text@);
        }
        let hundreds: u16 = (text.get_ascii(0) - ASCII_ZERO) as u16;
        let tens: u16 = (text.get_ascii(1) - ASCII_ZERO) as u16;
        let ones: u16 = (text.get_ascii(2) - ASCII_ZERO) as u16;
        Some(Extension { number: 100 * hundreds + 10 * tens + ones })
    }

    /// Reads an extension from text: exactly three digits and nothing else
    /// are an extension, any other text is none.
    pub fn from_text(text: &str) -> (extension: Option<Extension>)
        ensures
            match extension {
                Some(e) => is_extension_text(text@) && e@ == extension_value(text@),
                None => !is_extension_text(text@),
            },
    {
        proof {
            lemma_digits_of_same_len(text@);
        }
        match just_sanitize(text) {
            Some(digits) => {
                if digits.len() == text.unicode_len() {
                    Extension::from_digits(&digits)
                } else {
                    None
                }
            },
            None => None,
        }
    }

    /// The extension as it is dialed: three digits.
    pub fn text(self) -> (text: String)
        ensures
            0 <= self@ < 1000,
            text@ == extension_text(self@),
            is_extension_text(text@),
            extension_value(text@) == self@,
    {
        proof {
            use_type_invariant(self);
            lemma_extension_value_of_text(self@);
        }
        let n: u16 = self.number;
        let mut text = String::new();
        push_char(&mut text, ((n / 100) as u8 + ASCII_ZERO) as char);
        push_char(&mut text, (((n / 10) % 10) as u8 + ASCII_ZERO) as char);
        push_char(&mut text, ((n % 10) as u8 + ASCII_ZERO) as char);
        text
    }
}

} // verus!
