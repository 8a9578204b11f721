//! The inward code: the part of a postcode after the space, a sector and a unit.
use vstd::prelude::*;

use crate::digit::Digit;
use crate::digit::DigitParseError;
use crate::result_view;
use crate::text::byte_len;
use crate::text::char_to_decimal_digit;
use crate::text::chars_of;
use crate::text::digit_value;
use crate::text::is_ascii_digit;
use crate::text::lemma_byte_len_bounds;
use crate::text::str_byte_len;
use crate::text::string_from_chars;

verus! {

/// The number of bytes of an inward code.
pub const INWARDCODE_EXPECTED_LENGTH: usize = 3;

/// The inward code of a postcode, such as `1AA`: a sector digit and a unit.
#[derive(Debug, Clone)]
pub struct InwardCode {
    pub sector: Digit,
    pub unit: String,
}

/// An inward code as a value: the sector as its number, the unit as characters.
pub struct InwardCodeView {
    pub sector: u8,
    pub unit: Seq<char>,
}

impl View for InwardCode {
    type V = InwardCodeView;

    open spec fn view(&self) -> InwardCodeView {
        InwardCodeView { sector: self.sector@, unit: self.unit@ }
    }
}

/// Why an inward code could not be read.
#[derive(Debug)]
pub enum InwardCodeParseError {
    UnexpectedLength(usize, String),
    FailedToParseAsNum(char),
    DigitParseError(DigitParseError),
}

/// An inward code error as a value: its text as characters.
pub enum InwardCodeParseErrorView {
    UnexpectedLength(usize, Seq<char>),
    FailedToParseAsNum(char),
    DigitParseError(DigitParseError),
}

impl View for InwardCodeParseError {
    type V = InwardCodeParseErrorView;

    open spec fn view(&self) -> InwardCodeParseErrorView {
        match self {
            InwardCodeParseError::UnexpectedLength(n, s) => InwardCodeParseErrorView::UnexpectedLength(
                *n,
                s@,
            ),
            InwardCodeParseError::FailedToParseAsNum(c) => InwardCodeParseErrorView::FailedToParseAsNum(*c),
            InwardCodeParseError::DigitParseError(e) => InwardCodeParseErrorView::DigitParseError(*e),
        }
    }
}

/// The sector character as it is read: the letters `O` and `I` stand for `0` and `1`.
pub open spec fn sector_char(c: char) -> char {
    if c == 'O' {
        '0'
    } else if c == 'I' {
        '1'
    } else {
        c
    }
}

/// What reading the inward code text `s` gives: three bytes, the first character a
/// digit (or `O`, `I`) for the sector, the rest the unit.
pub open spec fn inward_spec(s: Seq<char>) -> Result<InwardCodeView, InwardCodeParseErrorView> {
    let n = byte_len(s);
    if n != INWARDCODE_EXPECTED_LENGTH {
        Err(InwardCodeParseErrorView::UnexpectedLength(n as usize, s))
    } else if !is_ascii_digit(sector_char(s[0])) {
        Err(InwardCodeParseErrorView::FailedToParseAsNum(sector_char(s[0])))
    } else {
        Ok(InwardCodeView { sector: digit_value(sector_char(s[0])) as u8, unit: s.skip(1) })
    }
}

/// An inward code of three bytes that starts with an ASCII digit is read with that
/// digit's value as its sector (so `0` too) and the other characters as its unit.
pub proof fn lemma_inward_digit_sector(s: Seq<char>)
    requires
        byte_len(s) == 3,
        s.len() > 0 && '0' <= s[0] <= '9',
    ensures
        inward_spec(s) == Ok::<InwardCodeView, InwardCodeParseErrorView>(
            InwardCodeView { sector: (s[0] as u32 - 48) as u8, unit: s.skip(1) },
        ),
{
}

/// The letters `O` and `I` at the start of an inward code of three bytes read as the
/// sectors 0 and 1, and any other character that is not an ASCII digit is refused
/// with that character; an inward code of any other byte length is refused with that
/// length and its text.
pub proof fn lemma_inward_other_first_chars(s: Seq<char>)
    ensures
        byte_len(s) != 3 ==> inward_spec(s) == Err::<InwardCodeView, InwardCodeParseErrorView>(
            InwardCodeParseErrorView::UnexpectedLength(byte_len(s) as usize, s),
        ),
        byte_len(s) == 3 && s.len() > 0 && s[0] == 'O' ==> inward_spec(s) == Ok::<
            InwardCodeView,
            InwardCodeParseErrorView,
        >(InwardCodeView { sector: 0, unit: s.skip(1) }),
        byte_len(s) == 3 && s.len() > 0 && s[0] == 'I' ==> inward_spec(s) == Ok::<
            InwardCodeView,
            InwardCodeParseErrorView,
        >(InwardCodeView { sector: 1, unit: s.skip(1) }),
        byte_len(s) == 3 && s.len() > 0 && s[0] != 'O' && s[0] != 'I' && !('0' <= s[0] <= '9')
            ==> inward_spec(s) == Err::<InwardCodeView, InwardCodeParseErrorView>(
            InwardCodeParseErrorView::FailedToParseAsNum(s[0]),
        ),
{
}

impl InwardCode {
    /// Reads an inward code from its text.
    pub fn new(s: &str) -> (r: Result<Self, InwardCodeParseError>)
        ensures
            result_view(r) == inward_spec(s@),
    {
        let len = str_byte_len(s);
        if len != INWARDCODE_EXPECTED_LENGTH {
            return Err(InwardCodeParseError::UnexpectedLength(len, s.to_owned()));
        }
        proof {
            lemma_byte_len_bounds(s@);
        }
        let mut chars = chars_of(s);
        if chars[0] == 'O' {
            chars.set(0, '0');
        } else if chars[0] == 'I' {
            chars.set(0, '1');
        }
        let first_char = match char_to_decimal_digit(chars[0]) {
            Some(d) => d,
            None => return Err(InwardCodeParseError::FailedToParseAsNum(chars[0])),
        };
        let sector = match Digit::try_from(first_char as u8) {
            Ok(d) => d,
            Err(e) => return Err(InwardCodeParseError::DigitParseError(e)),
        };
        let unit = string_from_chars(&chars, 1, chars.len());
        assert(unit@ =~= s@.skip(1));
        Ok(InwardCode { sector, unit })
    }
}

} // verus!
