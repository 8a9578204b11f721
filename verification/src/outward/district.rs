//! The district of an outward code: the number (and optional letter) after the area.
use vstd::prelude::*;

use crate::digit::Digit;
use crate::digit::DigitParseError;
use crate::result_view;
use crate::text::char_is_alphabetic;
use crate::text::char_to_decimal_digit;
use crate::text::chars_of;
use crate::text::decimal;
use crate::text::decimal_string;
use crate::text::decimal_value;
use crate::text::digit_char;
use crate::text::digit_value;
use crate::text::is_alphabetic_char;
use crate::text::is_ascii_digit;
use crate::text::lemma_decimal_digits;
use crate::text::parse_u32;
use crate::text::push_char;
use crate::text::string_from_chars;

verus! {

/// The fewest characters of a district.
pub const DISTRICT_LENGTH_LOWER: usize = 1;

/// The most characters of a district.
pub const DISTRICT_LENGTH_UPPER: usize = 2;

/// The district of a postcode: a number (`SW1`, `AB10`), or a digit followed by a
/// letter (`EC1A`).
#[derive(Debug, Clone, Copy)]
pub enum PostCodeDistrict {
    Normal(u32),
    Irregular(Digit, char),
}

/// A district as a value: the digit of an irregular district is its number.
pub enum DistrictView {
    Normal(u32),
    Irregular(u8, char),
}

impl View for PostCodeDistrict {
    type V = DistrictView;

    open spec fn view(&self) -> DistrictView {
        match *self {
            PostCodeDistrict::Normal(n) => DistrictView::Normal(n),
            PostCodeDistrict::Irregular(d, c) => DistrictView::Irregular(d@, c),
        }
    }
}

/// Why a district could not be read.
#[derive(Debug)]
pub enum DistrictParseError {
    InvalidLength(usize),
    FirstCharNumParseError(char),
    StrParseError(String),
    DigitParseError(DigitParseError),
}

/// A district error as a value: its text as characters.
pub enum DistrictParseErrorView {
    InvalidLength(usize),
    FirstCharNumParseError(char),
    StrParseError(Seq<char>),
    DigitParseError(DigitParseError),
}

impl View for DistrictParseError {
    type V = DistrictParseErrorView;

    open spec fn view(&self) -> DistrictParseErrorView {
        match self {
            DistrictParseError::InvalidLength(n) => DistrictParseErrorView::InvalidLength(*n),
            DistrictParseError::FirstCharNumParseError(c) => DistrictParseErrorView::FirstCharNumParseError(*c),
            DistrictParseError::StrParseError(s) => DistrictParseErrorView::StrParseError(s@),
            DistrictParseError::DigitParseError(e) => DistrictParseErrorView::DigitParseError(*e),
        }
    }
}

/// What reading the district text `s` gives: one or two characters, the first an ASCII
/// digit; a second character that is alphabetic makes an irregular district, a second
/// ASCII digit a two-digit number, anything else is refused.
pub open spec fn district_spec(s: Seq<char>) -> Result<DistrictView, DistrictParseErrorView> {
    let n = s.len();
    if n < DISTRICT_LENGTH_LOWER || n > DISTRICT_LENGTH_UPPER {
        Err(DistrictParseErrorView::InvalidLength(n as usize))
    } else if !is_ascii_digit(s[0]) {
        Err(DistrictParseErrorView::FirstCharNumParseError(s[0]))
    } else if s.len() == 1 {
        Ok(DistrictView::Normal(digit_value(s[0]) as u32))
    } else if is_alphabetic_char(s[1]) {
        Ok(DistrictView::Irregular(digit_value(s[0]) as u8, s[1]))
    } else if is_ascii_digit(s[1]) {
        Ok(DistrictView::Normal((digit_value(s[0]) * 10 + digit_value(s[1])) as u32))
    } else {
        Err(DistrictParseErrorView::StrParseError(s))
    }
}

/// The text of a district (its `Display` form).
pub open spec fn district_text(d: DistrictView) -> Seq<char> {
    match d {
        DistrictView::Normal(n) => decimal(n as nat),
        DistrictView::Irregular(digit, c) => decimal(digit as nat).push(c),
    }
}

impl PostCodeDistrict {
    /// Reads a district from its text.
    pub fn new(s: &str) -> (r: Result<Self, DistrictParseError>)
        ensures
            result_view(r) == district_spec(s@),
    {
        let chars = chars_of(s);
        let len = chars.len();
        if len < DISTRICT_LENGTH_LOWER || len > DISTRICT_LENGTH_UPPER {
            return Err(DistrictParseError::InvalidLength(len));
        }
        let first_char = match char_to_decimal_digit(chars[0]) {
            Some(d) => d,
            None => return Err(DistrictParseError::FirstCharNumParseError(chars[0])),
        };
        if chars.len() == 1 {
            return Ok(PostCodeDistrict::Normal(first_char));
        }
        if char_is_alphabetic(chars[1]) {
            match Digit::try_from(first_char as u8) {
                Ok(d) => Ok(PostCodeDistrict::Irregular(d, chars[1])),
                Err(e) => Err(DistrictParseError::DigitParseError(e)),
            }
        } else {
            let range_as_str = string_from_chars(&chars, 0, 2);
            assert(range_as_str@ =~= s@);
            proof {
                reveal_with_fuel(decimal_value, 3);
                assert(range_as_str@.drop_last().drop_last() =~= Seq::<char>::empty());
                if !is_ascii_digit(range_as_str@[1]) {
                    assert(!(forall|i: int| 0 <= i < range_as_str@.len() ==> is_ascii_digit(
                        #[trigger] range_as_str@[i],
                    )));
                }
            }
            match parse_u32(range_as_str.as_str()) {
                Some(n) => Ok(PostCodeDistrict::Normal(n)),
                None => Err(DistrictParseError::StrParseError(range_as_str)),
            }
        }
    }

    /// The text of the district (its `Display` form): the number, or the digit and
    /// the letter.
    pub fn to_display_string(&self) -> (r: String)
        ensures
            r@ == district_text(self@),
    {
        match self {
            PostCodeDistrict::Normal(n) => decimal_string(*n),
            PostCodeDistrict::Irregular(d, c) => {
                let mut r = d.to_display_string();
                push_char(&mut r, *c);
                r
            },
        }
    }
}

/// The shapes of a district: one ASCII digit is that number; a digit and an
/// alphabetic character are an irregular district; two ASCII digits are their
/// two-digit number; a digit and anything else is refused with the text; a first
/// character that is not an ASCII digit is refused with that character; and a text of
/// no character or of more than two is refused with its number of characters.
pub proof fn lemma_district_shapes(s: Seq<char>)
    ensures
        s.len() == 0 || s.len() > 2 ==> district_spec(s) == Err::<DistrictView, DistrictParseErrorView>(
            DistrictParseErrorView::InvalidLength(s.len() as usize),
        ),
        1 <= s.len() <= 2 && !('0' <= s[0] <= '9') ==> district_spec(s) == Err::<
            DistrictView,
            DistrictParseErrorView,
        >(DistrictParseErrorView::FirstCharNumParseError(s[0])),
        s.len() == 1 && '0' <= s[0] <= '9' ==> district_spec(s) == Ok::<
            DistrictView,
            DistrictParseErrorView,
        >(DistrictView::Normal((s[0] as u32 - 48) as u32)),
        s.len() == 2 && '0' <= s[0] <= '9' && is_alphabetic_char(s[1]) ==> district_spec(s)
            == Ok::<DistrictView, DistrictParseErrorView>(
            DistrictView::Irregular((s[0] as u32 - 48) as u8, s[1]),
        ),
        s.len() == 2 && '0' <= s[0] <= '9' && '0' <= s[1] <= '9' ==> district_spec(s) == Ok::<
            DistrictView,
            DistrictParseErrorView,
        >(DistrictView::Normal(((s[0] as u32 - 48) * 10 + (s[1] as u32 - 48)) as u32)),
        s.len() == 2 && '0' <= s[0] <= '9' && !is_alphabetic_char(s[1]) && !('0' <= s[1] <= '9')
            ==> district_spec(s) == Err::<DistrictView, DistrictParseErrorView>(
            DistrictParseErrorView::StrParseError(s),
        ),
{
}

/// The text of a district that was read is the text it was read from, but for the
/// leading zero of a two-digit number (`05` reads as `5`).
pub proof fn lemma_district_text_is_input(s: Seq<char>)
    requires
        district_spec(s) is Ok,
        !(s.len() == 2 && s[0] == '0' && is_ascii_digit(s[1])),
    ensures
        district_text(district_spec(s)->Ok_0) == s,
{
    let d = district_spec(s)->Ok_0;
    let t = district_text(d);
    if s.len() == 1 {
        lemma_decimal_digits(digit_value(s[0]));
        assert(t =~= s);
    } else if is_alphabetic_char(s[1]) {
        assert(digit_value(s[0]) < 10);
        lemma_decimal_digits(digit_value(s[0]));
        assert(t =~= s);
    } else {
        let n = digit_value(s[0]) * 10 + digit_value(s[1]);
        lemma_decimal_digits(n);
        assert(n / 10 == digit_value(s[0]) && n % 10 == digit_value(s[1]));
        assert(decimal(n) == decimal(n / 10).push(digit_char(n % 10)));
        assert(decimal(n / 10) == seq![digit_char(digit_value(s[0]))]);
        assert(t =~= s);
    }
}

/// Reading back the text of a district that was read from some text gives the same
/// district.
pub proof fn lemma_district_text_roundtrip(s: Seq<char>)
    requires
        district_spec(s) is Ok,
    ensures
        district_spec(district_text(district_spec(s)->Ok_0)) == district_spec(s),
{
    let d = district_spec(s)->Ok_0;
    let t = district_text(d);
    if s.len() == 2 && s[0] == '0' && is_ascii_digit(s[1]) {
        lemma_decimal_digits(digit_value(s[1]));
        assert(t[0] == s[1]);
    } else {
        lemma_district_text_is_input(s);
    }
}

} // verus!
