//! British postcodes: parsing a postcode into its outward code (area and district) and
//! inward code (sector and unit), with the reasons a text is refused.
use vstd::prelude::*;

pub mod digit;
pub mod inward;
pub mod nearby;
pub mod outward;
pub mod text;

pub use inward::InwardCode;
pub use outward::areas::PostCodeArea;
pub use outward::district::PostCodeDistrict;
pub use outward::OutwardCode;

use digit::Digit;
use inward::inward_spec;
use inward::InwardCodeParseError;
use inward::InwardCodeParseErrorView;
use inward::InwardCodeView;
use outward::outward_spec;
use outward::outward_text_would_panic;
use outward::outward_would_panic;
use outward::OutwardCodeParseError;
use outward::OutwardCodeParseErrorView;
use outward::OutwardCodeView;
use text::byte_len;
use text::char_is_alphanumeric;
use text::char_is_whitespace;
use text::chars_of;
use text::is_alphanumeric_char;
use text::is_ascii_digit;
use text::is_ascii_letter;
use text::is_whitespace_char;
use text::lemma_byte_len_bounds;
use text::string_from_chars;
use vstd::std_specs::cmp::PartialEqSpec;
use vstd::std_specs::cmp::PartialEqSpecImpl;

verus! {

/// A `Result` taken by the views of its two sides.
pub open spec fn result_view<T: View, E: View>(r: Result<T, E>) -> Result<T::V, E::V> {
    match r {
        Ok(t) => Ok(t@),
        Err(e) => Err(e@),
    }
}

/// The fewest characters a postcode has.
pub const POSTCODE_EXPECTED_MINIMUM_LENGTH: usize = 6;

/// The most characters a postcode has.
pub const POSTCODE_EXPECTED_MAXIMUM_LENGTH: usize = 8;

/// Why a text is not a postcode. Each error carries the text as it was read (with its
/// trailing whitespace and punctuation removed).
#[derive(Debug)]
pub enum PostcodeParseError {
    InvalidLength(String, usize),
    InvalidSpaceCount(String, usize),
    /// A postcode that is well formed but has no location; reading never gives it.
    PostCodeDoesntExist(String),
    OutwardCodeParseError(String, OutwardCodeParseError),
    InwardCodeParseError(String, InwardCodeParseError),
}

/// A postcode error as a value: its texts as characters.
pub enum PostcodeParseErrorView {
    InvalidLength(Seq<char>, usize),
    InvalidSpaceCount(Seq<char>, usize),
    PostCodeDoesntExist(Seq<char>),
    OutwardCodeParseError(Seq<char>, OutwardCodeParseErrorView),
    InwardCodeParseError(Seq<char>, InwardCodeParseErrorView),
}

impl View for PostcodeParseError {
    type V = PostcodeParseErrorView;

    open spec fn view(&self) -> PostcodeParseErrorView {
        match self {
            PostcodeParseError::InvalidLength(s, n) => PostcodeParseErrorView::InvalidLength(s@, *n),
            PostcodeParseError::InvalidSpaceCount(s, n) => PostcodeParseErrorView::InvalidSpaceCount(
                s@,
                *n,
            ),
            PostcodeParseError::PostCodeDoesntExist(s) => PostcodeParseErrorView::PostCodeDoesntExist(
                s@,
            ),
            PostcodeParseError::OutwardCodeParseError(s, e) => PostcodeParseErrorView::OutwardCodeParseError(
                s@,
                e@,
            ),
            PostcodeParseError::InwardCodeParseError(s, e) => PostcodeParseErrorView::InwardCodeParseError(
                s@,
                e@,
            ),
        }
    }
}

/// A British postcode, such as `BD1 1AF`: its inward and outward codes and its text.
#[derive(Debug, Clone)]
pub struct PostCode {
    pub inward_code: InwardCode,
    pub outward_code: OutwardCode,
    pub as_str: String,
}

/// A postcode as a value.
pub struct PostCodeView {
    pub inward: InwardCodeView,
    pub outward: OutwardCodeView,
    pub text: Seq<char>,
}

impl View for PostCode {
    type V = PostCodeView;

    open spec fn view(&self) -> PostCodeView {
        PostCodeView { inward: self.inward_code@, outward: self.outward_code@, text: self.as_str@ }
    }
}

// ---------------------------------------------------------------------------
// What reading a postcode means
// ---------------------------------------------------------------------------

/// `s` without its trailing whitespace (`str::trim_end`).
pub open spec fn trim_end_whitespace(s: Seq<char>) -> Seq<char>
    decreases s.len(),
{
    if s.len() > 0 && is_whitespace_char(s.last()) {
        trim_end_whitespace(s.drop_last())
    } else {
        s
    }
}

/// `s` without its trailing characters that are not alphanumeric.
pub open spec fn trim_end_non_alphanumeric(s: Seq<char>) -> Seq<char>
    decreases s.len(),
{
    if s.len() > 0 && !is_alphanumeric_char(s.last()) {
        trim_end_non_alphanumeric(s.drop_last())
    } else {
        s
    }
}

/// The text of a postcode as it is read: trailing whitespace, then trailing
/// characters that are not alphanumeric, removed.
pub open spec fn trimmed(s: Seq<char>) -> Seq<char> {
    trim_end_non_alphanumeric(trim_end_whitespace(s))
}

/// The positions of the spaces in `s`, in order.
pub open spec fn space_positions(s: Seq<char>) -> Seq<int>
    decreases s.len(),
{
    if s.len() == 0 {
        Seq::empty()
    } else if s.last() == ' ' {
        space_positions(s.drop_last()).push(s.len() - 1)
    } else {
        space_positions(s.drop_last())
    }
}

/// A text of six to eight characters with a single space.
pub open spec fn has_postcode_layout(t: Seq<char>) -> bool {
    POSTCODE_EXPECTED_MINIMUM_LENGTH <= t.len() <= POSTCODE_EXPECTED_MAXIMUM_LENGTH
        && space_positions(t).len() == 1
}

/// The text before the space of a postcode.
pub open spec fn outward_part(t: Seq<char>) -> Seq<char> {
    t.take(space_positions(t)[0])
}

/// The text after the space of a postcode.
pub open spec fn inward_part(t: Seq<char>) -> Seq<char> {
    t.skip(space_positions(t)[0] + 1)
}

/// What reading an already trimmed text `t` as a postcode gives.
pub open spec fn postcode_text_spec(t: Seq<char>) -> Result<PostCodeView, PostcodeParseErrorView> {
    let n = t.len();
    if n < POSTCODE_EXPECTED_MINIMUM_LENGTH || n > POSTCODE_EXPECTED_MAXIMUM_LENGTH {
        Err(PostcodeParseErrorView::InvalidLength(t, n as usize))
    } else if space_positions(t).len() != 1 {
        Err(PostcodeParseErrorView::InvalidSpaceCount(t, space_positions(t).len() as usize))
    } else {
        match outward_spec(outward_part(t)) {
            Err(e) => Err(PostcodeParseErrorView::OutwardCodeParseError(t, e)),
            Ok(outward) => match inward_spec(inward_part(t)) {
                Err(e) => Err(PostcodeParseErrorView::InwardCodeParseError(t, e)),
                Ok(inward) => Ok(PostCodeView { inward, outward, text: t }),
            },
        }
    }
}

/// What reading the text `s` as a postcode gives.
pub open spec fn postcode_spec(s: Seq<char>) -> Result<PostCodeView, PostcodeParseErrorView> {
    postcode_text_spec(trimmed(s))
}

/// The trimmed texts on which reading cannot go on: the outward code is a single
/// character of two to four bytes.
pub open spec fn postcode_text_would_panic(t: Seq<char>) -> bool {
    has_postcode_layout(t) && outward_would_panic(outward_part(t))
}

/// The texts on which [`PostCode::new`] cannot go on.
pub open spec fn postcode_would_panic(s: Seq<char>) -> bool {
    postcode_text_would_panic(trimmed(s))
}

// ---------------------------------------------------------------------------
// Facts about the texts
// ---------------------------------------------------------------------------

/// The space positions are positions of spaces in `s`.
pub proof fn lemma_space_positions(s: Seq<char>)
    ensures
        forall|j: int|
            0 <= j < space_positions(s).len() ==> 0 <= #[trigger] space_positions(s)[j] < s.len()
                && s[space_positions(s)[j]] == ' ',
        space_positions(s).len() <= s.len(),
    decreases s.len(),
{
    if s.len() > 0 {
        lemma_space_positions(s.drop_last());
    }
}

/// Trimming the end of `s` keeps a prefix of it.
pub proof fn lemma_trimmed_prefix(s: Seq<char>)
    ensures
        trim_end_whitespace(s).len() <= s.len(),
        trim_end_whitespace(s) == s.take(trim_end_whitespace(s).len() as int),
        trim_end_non_alphanumeric(s).len() <= s.len(),
        trim_end_non_alphanumeric(s) == s.take(trim_end_non_alphanumeric(s).len() as int),
    decreases s.len(),
{
    if s.len() > 0 {
        lemma_trimmed_prefix(s.drop_last());
        assert(s.take(s.len() as int) =~= s);
        assert forall|k: int| 0 <= k <= s.len() - 1 implies s.drop_last().take(k) =~= s.take(k) by {}
    }
}

/// What is left after removing trailing non-alphanumeric characters ends with an
/// alphanumeric character, if anything is left.
pub proof fn lemma_trimmed_ends_alphanumeric(s: Seq<char>)
    ensures
        trim_end_non_alphanumeric(s).len() > 0 ==> is_alphanumeric_char(
            trim_end_non_alphanumeric(s).last(),
        ),
    decreases s.len(),
{
    if s.len() > 0 {
        lemma_trimmed_ends_alphanumeric(s.drop_last());
    }
}

/// The positions of the spaces of `s` are, in increasing order, exactly the indices
/// of its space characters.
pub proof fn lemma_space_positions_exact(s: Seq<char>)
    ensures
        forall|j: int|
            0 <= j < space_positions(s).len() ==> 0 <= #[trigger] space_positions(s)[j] < s.len()
                && s[space_positions(s)[j]] == ' ',
        forall|j: int, k: int|
            0 <= j < k < space_positions(s).len() ==> #[trigger] space_positions(s)[j]
                < #[trigger] space_positions(s)[k],
        forall|i: int|
            0 <= i < s.len() && s[i] == ' ' ==> exists|j: int|
                0 <= j < space_positions(s).len() && #[trigger] space_positions(s)[j] == i,
    decreases s.len(),
{
    lemma_space_positions(s);
    if s.len() > 0 {
        let r = s.drop_last();
        lemma_space_positions_exact(r);
        lemma_space_positions(r);
        assert forall|i: int| 0 <= i < s.len() && s[i] == ' ' implies exists|j: int|
            0 <= j < space_positions(s).len() && #[trigger] space_positions(s)[j] == i by {
            if i < s.len() - 1 {
                assert(r[i] == ' ');
                let j = choose|j: int| 0 <= j < space_positions(r).len() && #[trigger] space_positions(r)[j] == i;
                assert(space_positions(s)[j] == i);
            } else {
                let j = space_positions(s).len() - 1;
                assert(space_positions(s)[j] == i);
            }
        }
    }
}

/// The characters that removing trailing whitespace drops are whitespace.
pub proof fn lemma_whitespace_dropped(s: Seq<char>)
    ensures
        forall|i: int|
            trim_end_whitespace(s).len() <= i < s.len() ==> is_whitespace_char(#[trigger] s[i]),
    decreases s.len(),
{
    lemma_trimmed_prefix(s);
    if s.len() > 0 && is_whitespace_char(s.last()) {
        lemma_whitespace_dropped(s.drop_last());
        assert forall|i: int| trim_end_whitespace(s).len() <= i < s.len() implies is_whitespace_char(
            #[trigger] s[i],
        ) by {
            if i < s.len() - 1 {
                assert(s.drop_last()[i] == s[i]);
            }
        }
    }
}

/// The characters that removing trailing non-alphanumeric characters drops are not
/// alphanumeric.
pub proof fn lemma_non_alphanumeric_dropped(s: Seq<char>)
    ensures
        forall|i: int|
            trim_end_non_alphanumeric(s).len() <= i < s.len() ==> !is_alphanumeric_char(
                #[trigger] s[i],
            ),
    decreases s.len(),
{
    lemma_trimmed_prefix(s);
    if s.len() > 0 && !is_alphanumeric_char(s.last()) {
        lemma_non_alphanumeric_dropped(s.drop_last());
        assert forall|i: int| trim_end_non_alphanumeric(s).len() <= i < s.len() implies !is_alphanumeric_char(
            #[trigger] s[i],
        ) by {
            if i < s.len() - 1 {
                assert(s.drop_last()[i] == s[i]);
            }
        }
    }
}

/// The text kept of `s` is a prefix of it that is empty or ends in an alphanumeric
/// character, and every character after it is not alphanumeric: the longest such
/// prefix.
pub proof fn lemma_trimmed_exact(s: Seq<char>)
    ensures
        trimmed(s).len() <= s.len(),
        trimmed(s) == s.take(trimmed(s).len() as int),
        trimmed(s).len() > 0 ==> is_alphanumeric_char(trimmed(s).last()),
        forall|i: int| trimmed(s).len() <= i < s.len() ==> !is_alphanumeric_char(#[trigger] s[i]),
{
    let w = trim_end_whitespace(s);
    lemma_trimmed_prefix(s);
    lemma_trimmed_prefix(w);
    lemma_trimmed_ends_alphanumeric(w);
    lemma_whitespace_dropped(s);
    lemma_non_alphanumeric_dropped(w);
    assert(trimmed(s) =~= s.take(trimmed(s).len() as int));
    assert forall|i: int| trimmed(s).len() <= i < s.len() implies !is_alphanumeric_char(
        #[trigger] s[i],
    ) by {
        if i < w.len() {
            assert(w[i] == s[i]);
        } else {
            assert(is_whitespace_char(s[i]));
        }
    }
}

/// A postcode that was read is its outward code, one space and its inward code; it
/// has six to eight characters, the outward code two to four bytes and the inward code
/// three; its
/// text is the input without its trailing whitespace and punctuation (a prefix of it),
/// and its sector is at most nine.
pub proof fn lemma_parsed_postcode_layout(s: Seq<char>)
    requires
        postcode_spec(s) is Ok,
    ensures
        ({
            let p = postcode_spec(s)->Ok_0;
            &&& p.text == trimmed(s)
            &&& p.text == s.take(p.text.len() as int)
            &&& has_postcode_layout(p.text)
            &&& p.text == outward_part(p.text) + seq![' '] + inward_part(p.text)
            &&& 2 <= byte_len(outward_part(p.text)) <= 4
            &&& byte_len(inward_part(p.text)) == 3
            &&& p.inward.sector <= 9
            &&& p.inward.unit == inward_part(p.text).skip(1)
        }),
{
    let t = trimmed(s);
    lemma_trimmed_prefix(s);
    lemma_trimmed_prefix(trim_end_whitespace(s));
    assert(t == s.take(t.len() as int));
    lemma_space_positions(t);
    let k = space_positions(t)[0];
    assert(t =~= t.take(k) + seq![' '] + t.skip(k + 1));
}

/// Reading the text of a postcode that was read gives the same postcode back: its text
/// ends in an alphanumeric character, which is not whitespace, so nothing more is
/// trimmed from it.
pub proof fn lemma_reparse(s: Seq<char>)
    requires
        postcode_spec(s) is Ok,
    ensures
        trimmed(trimmed(s)) == trimmed(s),
        postcode_spec(postcode_spec(s)->Ok_0.text) == postcode_spec(s),
{
    let t = trimmed(s);
    lemma_byte_len_bounds(t);
    lemma_trimmed_ends_alphanumeric(trim_end_whitespace(s));
    assert(trim_end_whitespace(t) == t);
    assert(trim_end_non_alphanumeric(t) == t);
}

/// A text whose kept part has six to eight characters and one space reads as a
/// postcode exactly when its outward part reads as an outward code and its inward part
/// as an inward code, and then as the postcode of those two codes and that text
/// (however short the outward code, `M1 1AE` included).
pub proof fn lemma_postcode_from_parts(s: Seq<char>)
    requires
        has_postcode_layout(trimmed(s)),
    ensures
        postcode_spec(s) is Ok <==> (outward_spec(outward_part(trimmed(s))) is Ok && inward_spec(
            inward_part(trimmed(s)),
        ) is Ok),
        outward_spec(outward_part(trimmed(s))) is Ok && inward_spec(inward_part(trimmed(s))) is Ok
            ==> postcode_spec(s) == Ok::<PostCodeView, PostcodeParseErrorView>(
            PostCodeView {
                inward: inward_spec(inward_part(trimmed(s)))->Ok_0,
                outward: outward_spec(outward_part(trimmed(s)))->Ok_0,
                text: trimmed(s),
            },
        ),
{
}

/// A text that is an ASCII letter naming an area, an ASCII digit, a space, an ASCII
/// digit and two ASCII letters (`M1 1AE`) reads as the postcode of that area, the
/// district of the first digit, the sector of the second digit and the unit of the two
/// letters, with the text itself.
pub proof fn lemma_postcode_short_outward(t: Seq<char>, area: PostCodeArea)
    requires
        t.len() == 6,
        is_ascii_letter(t[0]),
        outward::areas::area_of_letter(outward::areas::ascii_upper(t[0])) == Some(area),
        is_ascii_digit(t[1]),
        t[2] == ' ',
        is_ascii_digit(t[3]),
        is_ascii_letter(t[4]),
        is_ascii_letter(t[5]),
    ensures
        postcode_spec(t) == Ok::<PostCodeView, PostcodeParseErrorView>(
            PostCodeView {
                inward: InwardCodeView { sector: (t[3] as u32 - 48) as u8, unit: seq![t[4], t[5]] },
                outward: OutwardCodeView {
                    area,
                    district: outward::district::DistrictView::Normal((t[1] as u32 - 48) as u32),
                },
                text: t,
            },
        ),
{
    assert(trim_end_whitespace(t) == t);
    assert(trim_end_non_alphanumeric(t) == t);
    reveal_with_fuel(space_positions, 7);
    assert(t.drop_last() =~= t.take(5));
    assert(t.take(5).drop_last() =~= t.take(4));
    assert(t.take(4).drop_last() =~= t.take(3));
    assert(t.take(3).drop_last() =~= t.take(2));
    assert(t.take(2).drop_last() =~= t.take(1));
    assert(t.take(1).drop_last() =~= t.take(0));
    assert(space_positions(t.take(2)) =~= Seq::<int>::empty());
    assert(space_positions(t.take(3)) =~= seq![2int]);
    assert(space_positions(t) =~= seq![2int]);
    let o = outward_part(t);
    let i = inward_part(t);
    assert(o =~= seq![t[0], t[1]]);
    assert(i =~= seq![t[3], t[4], t[5]]);
    outward::lemma_outward_one_letter_area(o, area);
    lemma_byte_len_bounds(i);
    assert(i.skip(1) =~= seq![t[4], t[5]]);
}

/// Two postcodes are equal exactly when their texts are.
pub proof fn lemma_postcode_eq(p: PostCode, q: PostCode)
    ensures
        PartialEqSpec::eq_spec(&p, &q) <==> p.as_str@ == q.as_str@,
{
}

/// Two texts that read as postcodes with the same text read as the same postcode: the
/// same outward and inward codes. So postcodes with different outward or inward codes
/// never have the same text, and are never equal.
pub proof fn lemma_same_text_same_postcode(s1: Seq<char>, s2: Seq<char>)
    requires
        postcode_spec(s1) is Ok,
        postcode_spec(s2) is Ok,
        postcode_spec(s1)->Ok_0.text == postcode_spec(s2)->Ok_0.text,
    ensures
        postcode_spec(s1) == postcode_spec(s2),
{
}

// ---------------------------------------------------------------------------
// Reading a postcode
// ---------------------------------------------------------------------------

/// The text of `s` as it is read: trailing whitespace, then trailing characters that
/// are not alphanumeric, removed.
fn trim_text(s: &str) -> (r: String)
    ensures
        r@ == trimmed(s@),
{
    let chars = chars_of(s);
    let mut k = chars.len();
    assert(s@.take(k as int) =~= s@);
    loop
        invariant
            k <= chars.len(),
            chars@ == s@,
            trim_end_whitespace(s@) == trim_end_whitespace(s@.take(k as int)),
        ensures
            k == 0 || !is_whitespace_char(s@[k - 1]),
        decreases k,
    {
        if k == 0 {
            break;
        }
        if !char_is_whitespace(chars[k - 1]) {
            break;
        }
        assert(s@.take(k as int).drop_last() =~= s@.take(k - 1));
        k = k - 1;
    }
    assert(trim_end_whitespace(s@.take(k as int)) == s@.take(k as int));
    let ghost w = s@.take(k as int);
    let mut j = k;
    loop
        invariant
            j <= k <= chars.len(),
            chars@ == s@,
            w == s@.take(k as int),
            trim_end_non_alphanumeric(w) == trim_end_non_alphanumeric(s@.take(j as int)),
        ensures
            j == 0 || is_alphanumeric_char(s@[j - 1]),
        decreases j,
    {
        if j == 0 {
            break;
        }
        if char_is_alphanumeric(chars[j - 1]) {
            break;
        }
        assert(s@.take(j as int).drop_last() =~= s@.take(j - 1));
        j = j - 1;
    }
    assert(trim_end_non_alphanumeric(s@.take(j as int)) == s@.take(j as int));
    string_from_chars(&chars, 0, j)
}

/// The outward and inward parts of a trimmed text, or the error on its length or
/// its spaces.
fn split_parts(t: &String) -> (r: Result<(String, String), PostcodeParseError>)
    ensures
        match r {
            Ok((o, i)) => has_postcode_layout(t@) && o@ == outward_part(t@) && i@ == inward_part(
                t@,
            ),
            Err(e) => !has_postcode_layout(t@) && postcode_text_spec(t@) == Err::<PostCodeView, PostcodeParseErrorView>(e@),
        },
{
    let chars = chars_of(t.as_str());
    let n = chars.len();
    if n < POSTCODE_EXPECTED_MINIMUM_LENGTH || n > POSTCODE_EXPECTED_MAXIMUM_LENGTH {
        return Err(PostcodeParseError::InvalidLength(t.clone(), n));
    }
    let mut count: usize = 0;
    let mut first: usize = 0;
    for i in 0..chars.len()
        invariant
            chars@ == t@,
            count <= i,
            count == space_positions(t@.take(i as int)).len(),
            count > 0 ==> first == space_positions(t@.take(i as int))[0],
    {
        assert(t@.take(i + 1).drop_last() =~= t@.take(i as int));
        if chars[i] == ' ' {
            if count == 0 {
                first = i;
            }
            count = count + 1;
        }
    }
    assert(t@.take(chars.len() as int) =~= t@);
    proof {
        lemma_space_positions(t@);
    }
    if count != 1 {
        return Err(PostcodeParseError::InvalidSpaceCount(t.clone(), count));
    }
    let o = string_from_chars(&chars, 0, first);
    let i = string_from_chars(&chars, first + 1, chars.len());
    assert(o@ =~= outward_part(t@));
    assert(i@ =~= inward_part(t@));
    Ok((o, i))
}

impl PostCode {
    /// Reads a postcode from a text such as `"BD1 1AF"`: the text, without its trailing
    /// whitespace and punctuation, must have six to eight characters, one space, and an
    /// outward and an inward code on either side of it.
    pub fn new(s: String) -> (r: Result<Self, PostcodeParseError>)
        requires
            !postcode_would_panic(s@),
        ensures
            result_view(r) == postcode_spec(s@),
    {
        let t = trim_text(s.as_str());
        let (o, i) = match split_parts(&t) {
            Ok(parts) => parts,
            Err(e) => return Err(e),
        };
        let outward_code = match OutwardCode::new(o.as_str()) {
            Ok(code) => code,
            Err(e) => return Err(PostcodeParseError::OutwardCodeParseError(t.clone(), e)),
        };
        let inward_code = match InwardCode::new(i.as_str()) {
            Ok(code) => code,
            Err(e) => return Err(PostcodeParseError::InwardCodeParseError(t.clone(), e)),
        };
        Ok(PostCode { inward_code, outward_code, as_str: t })
    }

    /// Reads a postcode like [`PostCode::new`], and gives `None` on the texts on which
    /// that cannot go on (an outward code that is a single character of two to four
    /// bytes).
    pub fn checked_new(s: String) -> (r: Option<Result<Self, PostcodeParseError>>)
        ensures
            r is None <==> postcode_would_panic(s@),
            r matches Some(res) ==> result_view(res) == postcode_spec(s@),
    {
        let t = trim_text(s.as_str());
        match split_parts(&t) {
            Err(_) => {},
            Ok((o, _)) => {
                if outward_text_would_panic(o.as_str()) {
                    return None;
                }
            },
        }
        Some(PostCode::new(s))
    }

    /// The inward code.
    pub fn inward_code(&self) -> (r: &InwardCode)
        ensures
            r == &self.inward_code,
    {
        &self.inward_code
    }

    /// The outward code.
    pub fn outward_code(&self) -> (r: &OutwardCode)
        ensures
            r == &self.outward_code,
    {
        &self.outward_code
    }

    /// The sector: the same as `inward_code().sector`.
    pub fn sector(&self) -> (r: Digit)
        ensures
            r == self.inward_code.sector,
    {
        self.inward_code.sector
    }

    /// The unit: the same as `inward_code().unit`.
    pub fn unit(&self) -> (r: &str)
        ensures
            r@ == self.inward_code.unit@,
    {
        self.inward_code.unit.as_str()
    }

    /// The area: the same as `outward_code().area`.
    pub fn area(&self) -> (r: &PostCodeArea)
        ensures
            *r == self.outward_code.area,
    {
        &self.outward_code.area
    }

    /// The district: the same as `outward_code().district`.
    pub fn district(&self) -> (r: &PostCodeDistrict)
        ensures
            *r == self.outward_code.district,
    {
        &self.outward_code.district
    }

    /// The text of the postcode.
    pub fn as_str(&self) -> (r: &str)
        ensures
            r@ == self.as_str@,
    {
        self.as_str.as_str()
    }
}

/// Two postcodes are equal when their texts are.
impl PartialEq for PostCode {
    fn eq(&self, other: &Self) -> (r: bool) {
        self.as_str == other.as_str
    }
}

impl PartialEqSpecImpl for PostCode {
    open spec fn obeys_eq_spec() -> bool {
        true
    }

    open spec fn eq_spec(&self, other: &Self) -> bool {
        self.as_str@ == other.as_str@
    }
}

} // verus!
