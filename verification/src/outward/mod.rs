//! The outward code: the part of a postcode before the space, an area and a district.
use vstd::prelude::*;

pub mod areas;
pub mod district;

use crate::outward::areas::area_spec;
use crate::outward::areas::AreaParseError;
use crate::outward::areas::AreaParseErrorView;
use crate::outward::areas::PostCodeArea;
use crate::outward::district::district_spec;
use crate::outward::district::DistrictParseError;
use crate::outward::district::DistrictParseErrorView;
use crate::outward::district::DistrictView;
use crate::outward::district::PostCodeDistrict;
use crate::result_view;
use crate::outward::areas::area_of_letter;
use crate::outward::areas::area_of_letters;
use crate::outward::areas::ascii_upper;
use crate::outward::areas::upper_text;
use crate::text::byte_len;
use crate::text::is_ascii_digit;
use crate::text::is_ascii_letter;
use crate::text::lemma_byte_len_bounds;
use crate::text::char_is_numeric;
use crate::text::chars_of;
use crate::text::is_numeric_char;
use crate::text::str_byte_len;
use crate::text::string_from_chars;

verus! {

/// The fewest bytes of an outward code.
pub const OUTWARD_LENGTH_LOWER: usize = 2;

/// The most bytes of an outward code.
pub const OUTWARD_LENGTH_UPPER: usize = 4;

/// The outward code of a postcode, such as `SW1A` or `B1`.
#[derive(Debug, Clone, Copy)]
pub struct OutwardCode {
    pub area: PostCodeArea,
    pub district: PostCodeDistrict,
}

/// An outward code as a value.
pub struct OutwardCodeView {
    pub area: PostCodeArea,
    pub district: DistrictView,
}

impl View for OutwardCode {
    type V = OutwardCodeView;

    open spec fn view(&self) -> OutwardCodeView {
        OutwardCodeView { area: self.area, district: self.district@ }
    }
}

/// Why an outward code could not be read.
#[derive(Debug)]
pub enum OutwardCodeParseError {
    InvalidLength(usize),
    AreaParseError(AreaParseError),
    DistrictParseError(DistrictParseError),
}

/// An outward code error as a value.
pub enum OutwardCodeParseErrorView {
    InvalidLength(usize),
    AreaParseError(AreaParseErrorView),
    DistrictParseError(DistrictParseErrorView),
}

impl View for OutwardCodeParseError {
    type V = OutwardCodeParseErrorView;

    open spec fn view(&self) -> OutwardCodeParseErrorView {
        match self {
            OutwardCodeParseError::InvalidLength(n) => OutwardCodeParseErrorView::InvalidLength(*n),
            OutwardCodeParseError::AreaParseError(e) => OutwardCodeParseErrorView::AreaParseError(e@),
            OutwardCodeParseError::DistrictParseError(e) => OutwardCodeParseErrorView::DistrictParseError(e@),
        }
    }
}

/// The inputs on which reading an outward code cannot go on: two to four bytes that
/// make fewer than two characters.
pub open spec fn outward_would_panic(s: Seq<char>) -> bool {
    OUTWARD_LENGTH_LOWER <= byte_len(s) <= OUTWARD_LENGTH_UPPER && s.len() < 2
}

/// How many characters of an outward code make its area: one when the second
/// character is numeric, else two.
pub open spec fn area_len(s: Seq<char>) -> int {
    if is_numeric_char(s[1]) {
        1
    } else {
        2
    }
}

/// What reading the outward code text `s` gives: two to four bytes, an area of one or
/// two characters and a district of the rest.
pub open spec fn outward_spec(s: Seq<char>) -> Result<OutwardCodeView, OutwardCodeParseErrorView> {
    let n = byte_len(s);
    if n < OUTWARD_LENGTH_LOWER || n > OUTWARD_LENGTH_UPPER {
        Err(OutwardCodeParseErrorView::InvalidLength(n as usize))
    } else {
        let k = area_len(s);
        match area_spec(s.take(k)) {
            Err(e) => Err(OutwardCodeParseErrorView::AreaParseError(e)),
            Ok(area) => match district_spec(s.skip(k)) {
                Err(e) => Err(OutwardCodeParseErrorView::DistrictParseError(e)),
                Ok(district) => Ok(OutwardCodeView { area, district }),
            },
        }
    }
}

/// An outward code of two to four bytes whose area (its first character when the second
/// is numeric, else its first two) and district (the rest) both read, reads as that
/// area and district, whichever kind the district is; when the area does not read, or
/// it does and the district does not, the code is refused.
pub proof fn lemma_outward_area_then_district(s: Seq<char>)
    requires
        2 <= byte_len(s) <= 4,
        s.len() >= 2,
    ensures
        is_numeric_char(s[1]) && area_spec(s.take(1)) is Ok && district_spec(s.skip(1)) is Ok
            ==> outward_spec(s) == Ok::<OutwardCodeView, OutwardCodeParseErrorView>(
            OutwardCodeView {
                area: area_spec(s.take(1))->Ok_0,
                district: district_spec(s.skip(1))->Ok_0,
            },
        ),
        !is_numeric_char(s[1]) && area_spec(s.take(2)) is Ok && district_spec(s.skip(2)) is Ok
            ==> outward_spec(s) == Ok::<OutwardCodeView, OutwardCodeParseErrorView>(
            OutwardCodeView {
                area: area_spec(s.take(2))->Ok_0,
                district: district_spec(s.skip(2))->Ok_0,
            },
        ),
        is_numeric_char(s[1]) && area_spec(s.take(1)) is Err ==> outward_spec(s) is Err,
        !is_numeric_char(s[1]) && area_spec(s.take(2)) is Err ==> outward_spec(s) is Err,
        is_numeric_char(s[1]) && district_spec(s.skip(1)) is Err ==> outward_spec(s) is Err,
        !is_numeric_char(s[1]) && district_spec(s.skip(2)) is Err ==> outward_spec(s) is Err,
{
}

/// An outward code of one ASCII letter naming an area, an ASCII digit and, optionally,
/// an ASCII letter (`B1`, `W1A`) reads as that area with the district of the digit:
/// a number, or the digit and the letter.
pub proof fn lemma_outward_one_letter_area(s: Seq<char>, area: PostCodeArea)
    requires
        s.len() == 2 || s.len() == 3,
        is_ascii_letter(s[0]),
        area_of_letter(ascii_upper(s[0])) == Some(area),
        is_ascii_digit(s[1]),
        s.len() == 3 ==> is_ascii_letter(s[2]),
    ensures
        s.len() == 2 ==> outward_spec(s) == Ok::<OutwardCodeView, OutwardCodeParseErrorView>(
            OutwardCodeView { area, district: DistrictView::Normal((s[1] as u32 - 48) as u32) },
        ),
        s.len() == 3 ==> outward_spec(s) == Ok::<OutwardCodeView, OutwardCodeParseErrorView>(
            OutwardCodeView {
                area,
                district: DistrictView::Irregular((s[1] as u32 - 48) as u8, s[2]),
            },
        ),
{
    lemma_byte_len_bounds(s);
    assert(upper_text(s.take(1)) =~= seq![ascii_upper(s[0])]);
    assert(s.skip(1)[0] == s[1]);
    if s.len() == 3 {
        assert(s.skip(1)[1] == s[2]);
    }
}

/// An outward code of two ASCII letters naming an area followed by one or two ASCII
/// digits (`SW1`, `AB10`) reads as that area with the number of the digits.
pub proof fn lemma_outward_two_letter_area(s: Seq<char>, area: PostCodeArea)
    requires
        s.len() == 3 || s.len() == 4,
        is_ascii_letter(s[0]),
        is_ascii_letter(s[1]),
        area_of_letters(ascii_upper(s[0]), ascii_upper(s[1])) == Some(area),
        is_ascii_digit(s[2]),
        s.len() == 4 ==> is_ascii_digit(s[3]),
    ensures
        s.len() == 3 ==> outward_spec(s) == Ok::<OutwardCodeView, OutwardCodeParseErrorView>(
            OutwardCodeView { area, district: DistrictView::Normal((s[2] as u32 - 48) as u32) },
        ),
        s.len() == 4 ==> outward_spec(s) == Ok::<OutwardCodeView, OutwardCodeParseErrorView>(
            OutwardCodeView {
                area,
                district: DistrictView::Normal(
                    ((s[2] as u32 - 48) * 10 + (s[3] as u32 - 48)) as u32,
                ),
            },
        ),
{
    lemma_byte_len_bounds(s);
    assert(upper_text(s.take(2)) =~= seq![ascii_upper(s[0]), ascii_upper(s[1])]);
    assert(s.skip(2)[0] == s[2]);
    if s.len() == 4 {
        assert(s.skip(2)[1] == s[3]);
    }
}

/// Whether reading `s` as an outward code cannot go on (see [`outward_would_panic`]).
pub fn outward_text_would_panic(s: &str) -> (r: bool)
    ensures
        r == outward_would_panic(s@),
{
    let len = str_byte_len(s);
    let chars = chars_of(s);
    OUTWARD_LENGTH_LOWER <= len && len <= OUTWARD_LENGTH_UPPER && chars.len() < 2
}

impl OutwardCode {
    /// Reads an outward code from its text.
    pub fn new(s: &str) -> (r: Result<Self, OutwardCodeParseError>)
        requires
            !outward_would_panic(s@),
        ensures
            result_view(r) == outward_spec(s@),
    {
        let len = str_byte_len(s);
        if len < OUTWARD_LENGTH_LOWER || len > OUTWARD_LENGTH_UPPER {
            return Err(OutwardCodeParseError::InvalidLength(len));
        }
        let chars = chars_of(s);
        let is_single_char_area = char_is_numeric(chars[1]);
        let k: usize = if is_single_char_area {
            1
        } else {
            2
        };
        let raw_area = string_from_chars(&chars, 0, k);
        assert(raw_area@ =~= s@.take(k as int));
        let area = match PostCodeArea::new(raw_area.as_str()) {
            Ok(a) => a,
            Err(e) => return Err(OutwardCodeParseError::AreaParseError(e)),
        };
        let raw_district = string_from_chars(&chars, k, chars.len());
        assert(raw_district@ =~= s@.skip(k as int));
        let district = match PostCodeDistrict::new(raw_district.as_str()) {
            Ok(d) => d,
            Err(e) => return Err(OutwardCodeParseError::DistrictParseError(e)),
        };
        Ok(OutwardCode { area, district })
    }
}

} // verus!
