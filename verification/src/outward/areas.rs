//! The area of an outward code: the one or two letters that start a postcode.
use vstd::prelude::*;

use crate::text::chars_of;

verus! {

/// A postcode area, named after the town or district it is centred on (the London
/// areas after their compass point).
#[derive(Debug, Clone, Copy, PartialEq, Eq, Structural)]
pub enum PostCodeArea {
    /// `B`
    Birmingham,
    /// `E`
    LondonE,
    /// `G`
    Glasgow,
    /// `L`
    Liverpool,
    /// `M`
    Manchester,
    /// `N`
    LondonN,
    /// `S`
    Sheffield,
    /// `W`
    LondonW,
    /// `AB`
    Aberdeen,
    /// `AL`
    StAlbans,
    /// `BA`
    Bath,
    /// `BB`
    Blackburn,
    /// `BD`
    Bradford,
    /// `BH`
    Bournemouth,
    /// `BL`
    Bolton,
    /// `BN`
    Brighton,
    /// `BR`
    Bromley,
    /// `BS`
    Bristol,
    /// `BT`
    Belfast,
    /// `CA`
    Carlisle,
    /// `CB`
    Cambridge,
    /// `CF`
    Cardiff,
    /// `CH`
    Chester,
    /// `CM`
    Chelmsford,
    /// `CO`
    Colchester,
    /// `CR`
    Croydon,
    /// `CT`
    Canterbury,
    /// `CV`
    Coventry,
    /// `CW`
    Crewe,
    /// `DA`
    Dartford,
    /// `DD`
    Dundee,
    /// `DE`
    Derby,
    /// `DG`
    Dumfries,
    /// `DH`
    Durham,
    /// `DL`
    Darlington,
    /// `DN`
    Doncaster,
    /// `DT`
    Dorchester,
    /// `DY`
    Dudley,
    /// `EC`
    LondonEC,
    /// `EH`
    Edinburgh,
    /// `EN`
    Enfield,
    /// `EX`
    Exeter,
    /// `FK`
    Falkirk,
    /// `FY`
    Blackpool,
    /// `GL`
    Gloucester,
    /// `GU`
    Guildford,
    /// `GY`
    Guernsey,
    /// `HA`
    Harrow,
    /// `HD`
    Huddersfield,
    /// `HG`
    Harrogate,
    /// `HP`
    HemelHempstead,
    /// `HR`
    Hereford,
    /// `HS`
    OuterHebrides,
    /// `HU`
    Hull,
    /// `HX`
    Halifax,
    /// `IG`
    Ilford,
    /// `IM`
    IsleOfMan,
    /// `IP`
    Ipswich,
    /// `IV`
    Inverness,
    /// `JE`
    Jersey,
    /// `KA`
    Kilmarnock,
    /// `KT`
    KingstonUponThames,
    /// `KW`
    Kirkwall,
    /// `KY`
    Kirkcaldy,
    /// `LA`
    Lancaster,
    /// `LD`
    LlandrindodWells,
    /// `LE`
    Leicester,
    /// `LL`
    Llandudno,
    /// `LN`
    Lincoln,
    /// `LS`
    Leeds,
    /// `LU`
    Luton,
    /// `ME`
    Rochester,
    /// `MK`
    MiltonKeynes,
    /// `ML`
    Motherwell,
    /// `NE`
    Newcastle,
    /// `NG`
    Nottingham,
    /// `NN`
    Northampton,
    /// `NP`
    Newport,
    /// `NR`
    Norwich,
    /// `NW`
    LondonNW,
    /// `OL`
    Oldham,
    /// `OX`
    Oxford,
    /// `PA`
    Paisley,
    /// `PE`
    Peterborough,
    /// `PH`
    Perth,
    /// `PL`
    Plymouth,
    /// `PO`
    Portsmouth,
    /// `PR`
    Preston,
    /// `RG`
    Reading,
    /// `RH`
    Redhill,
    /// `RM`
    Romford,
    /// `SA`
    Swansea,
    /// `SE`
    LondonSE,
    /// `SG`
    Stevenage,
    /// `SK`
    Stockport,
    /// `SL`
    Slough,
    /// `SM`
    Sutton,
    /// `SN`
    Swindon,
    /// `SO`
    Southampton,
    /// `SP`
    Salisbury,
    /// `SR`
    Sunderland,
    /// `SS`
    SouthendOnSea,
    /// `ST`
    StokeOnTrent,
    /// `SW`
    LondonSW,
    /// `SY`
    Shrewsbury,
    /// `TA`
    Taunton,
    /// `TD`
    Galashiels,
    /// `TF`
    Telford,
    /// `TN`
    Tonbridge,
    /// `TQ`
    Torquay,
    /// `TR`
    Truro,
    /// `TS`
    Cleveland,
    /// `TW`
    Twickenham,
    /// `UB`
    Southall,
    /// `WA`
    Warrington,
    /// `WC`
    LondonWC,
    /// `WD`
    Watford,
    /// `WF`
    Wakefield,
    /// `WN`
    Wigan,
    /// `WR`
    Worcester,
    /// `WS`
    Walsall,
    /// `WV`
    Wolverhampton,
    /// `YO`
    York,
    /// `ZE`
    Lerwick,
}

/// Why an area could not be read: the text names no area.
#[derive(Debug)]
pub enum AreaParseError {
    UnknownArea(String),
}

/// An area error as a value: its text as characters.
pub enum AreaParseErrorView {
    UnknownArea(Seq<char>),
}

impl View for AreaParseError {
    type V = AreaParseErrorView;

    open spec fn view(&self) -> AreaParseErrorView {
        match self {
            AreaParseError::UnknownArea(s) => AreaParseErrorView::UnknownArea(s@),
        }
    }
}

impl View for PostCodeArea {
    type V = PostCodeArea;

    open spec fn view(&self) -> PostCodeArea {
        *self
    }
}

/// `c` with an ASCII lower-case letter made upper-case.
pub open spec fn ascii_upper(c: char) -> char {
    if 'a' <= c && c <= 'z' {
        ((c as u32) - 32) as char
    } else {
        c
    }
}

/// The area with a one-letter code.
#[verifier::opaque]
pub open spec fn area_of_letter(a: char) -> Option<PostCodeArea> {
    match a {
        'B' => Some(PostCodeArea::Birmingham),
        'E' => Some(PostCodeArea::LondonE),
        'G' => Some(PostCodeArea::Glasgow),
        'L' => Some(PostCodeArea::Liverpool),
        'M' => Some(PostCodeArea::Manchester),
        'N' => Some(PostCodeArea::LondonN),
        'S' => Some(PostCodeArea::Sheffield),
        'W' => Some(PostCodeArea::LondonW),
        _ => None,
    }
}

/// The area with a two-letter code.
#[verifier::opaque]
pub open spec fn area_of_letters(a: char, b: char) -> Option<PostCodeArea> {
    match (a, b) {
        ('A', 'B') => Some(PostCodeArea::Aberdeen),
        ('A', 'L') => Some(PostCodeArea::StAlbans),
        ('B', 'A') => Some(PostCodeArea::Bath),
        ('B', 'B') => Some(PostCodeArea::Blackburn),
        ('B', 'D') => Some(PostCodeArea::Bradford),
        ('B', 'H') => Some(PostCodeArea::Bournemouth),
        ('B', 'L') => Some(PostCodeArea::Bolton),
        ('B', 'N') => Some(PostCodeArea::Brighton),
        ('B', 'R') => Some(PostCodeArea::Bromley),
        ('B', 'S') => Some(PostCodeArea::Bristol),
        ('B', 'T') => Some(PostCodeArea::Belfast),
        ('C', 'A') => Some(PostCodeArea::Carlisle),
        ('C', 'B') => Some(PostCodeArea::Cambridge),
        ('C', 'F') => Some(PostCodeArea::Cardiff),
        ('C', 'H') => Some(PostCodeArea::Chester),
        ('C', 'M') => Some(PostCodeArea::Chelmsford),
        ('C', 'O') => Some(PostCodeArea::Colchester),
        ('C', 'R') => Some(PostCodeArea::Croydon),
        ('C', 'T') => Some(PostCodeArea::Canterbury),
        ('C', 'V') => Some(PostCodeArea::Coventry),
        ('C', 'W') => Some(PostCodeArea::Crewe),
        ('D', 'A') => Some(PostCodeArea::Dartford),
        ('D', 'D') => Some(PostCodeArea::Dundee),
        ('D', 'E') => Some(PostCodeArea::Derby),
        ('D', 'G') => Some(PostCodeArea::Dumfries),
        ('D', 'H') => Some(PostCodeArea::Durham),
        ('D', 'L') => Some(PostCodeArea::Darlington),
        ('D', 'N') => Some(PostCodeArea::Doncaster),
        ('D', 'T') => Some(PostCodeArea::Dorchester),
        ('D', 'Y') => Some(PostCodeArea::Dudley),
        ('E', 'C') => Some(PostCodeArea::LondonEC),
        ('E', 'H') => Some(PostCodeArea::Edinburgh),
        ('E', 'N') => Some(PostCodeArea::Enfield),
        ('E', 'X') => Some(PostCodeArea::Exeter),
        ('F', 'K') => Some(PostCodeArea::Falkirk),
        ('F', 'Y') => Some(PostCodeArea::Blackpool),
        ('G', 'L') => Some(PostCodeArea::Gloucester),
        ('G', 'U') => Some(PostCodeArea::Guildford),
        ('G', 'Y') => Some(PostCodeArea::Guernsey),
        ('H', 'A') => Some(PostCodeArea::Harrow),
        ('H', 'D') => Some(PostCodeArea::Huddersfield),
        ('H', 'G') => Some(PostCodeArea::Harrogate),
        ('H', 'P') => Some(PostCodeArea::HemelHempstead),
        ('H', 'R') => Some(PostCodeArea::Hereford),
        ('H', 'S') => Some(PostCodeArea::OuterHebrides),
        ('H', 'U') => Some(PostCodeArea::Hull),
        ('H', 'X') => Some(PostCodeArea::Halifax),
        ('I', 'G') => Some(PostCodeArea::Ilford),
        ('I', 'M') => Some(PostCodeArea::IsleOfMan),
        ('I', 'P') => Some(PostCodeArea::Ipswich),
        ('I', 'V') => Some(PostCodeArea::Inverness),
        ('J', 'E') => Some(PostCodeArea::Jersey),
        ('K', 'A') => Some(PostCodeArea::Kilmarnock),
        ('K', 'T') => Some(PostCodeArea::KingstonUponThames),
        ('K', 'W') => Some(PostCodeArea::Kirkwall),
        ('K', 'Y') => Some(PostCodeArea::Kirkcaldy),
        ('L', 'A') => Some(PostCodeArea::Lancaster),
        ('L', 'D') => Some(PostCodeArea::LlandrindodWells),
        ('L', 'E') => Some(PostCodeArea::Leicester),
        ('L', 'L') => Some(PostCodeArea::Llandudno),
        ('L', 'N') => Some(PostCodeArea::Lincoln),
        ('L', 'S') => Some(PostCodeArea::Leeds),
        ('L', 'U') => Some(PostCodeArea::Luton),
        ('M', 'E') => Some(PostCodeArea::Rochester),
        ('M', 'K') => Some(PostCodeArea::MiltonKeynes),
        ('M', 'L') => Some(PostCodeArea::Motherwell),
        ('N', 'E') => Some(PostCodeArea::Newcastle),
        ('N', 'G') => Some(PostCodeArea::Nottingham),
        ('N', 'N') => Some(PostCodeArea::Northampton),
        ('N', 'P') => Some(PostCodeArea::Newport),
        ('N', 'R') => Some(PostCodeArea::Norwich),
        ('N', 'W') => Some(PostCodeArea::LondonNW),
        ('O', 'L') => Some(PostCodeArea::Oldham),
        ('O', 'X') => Some(PostCodeArea::Oxford),
        ('P', 'A') => Some(PostCodeArea::Paisley),
        ('P', 'E') => Some(PostCodeArea::Peterborough),
        ('P', 'H') => Some(PostCodeArea::Perth),
        ('P', 'L') => Some(PostCodeArea::Plymouth),
        ('P', 'O') => Some(PostCodeArea::Portsmouth),
        ('P', 'R') => Some(PostCodeArea::Preston),
        ('R', 'G') => Some(PostCodeArea::Reading),
        ('R', 'H') => Some(PostCodeArea::Redhill),
        ('R', 'M') => Some(PostCodeArea::Romford),
        ('S', 'A') => Some(PostCodeArea::Swansea),
        ('S', 'E') => Some(PostCodeArea::LondonSE),
        ('S', 'G') => Some(PostCodeArea::Stevenage),
        ('S', 'K') => Some(PostCodeArea::Stockport),
        ('S', 'L') => Some(PostCodeArea::Slough),
        ('S', 'M') => Some(PostCodeArea::Sutton),
        ('S', 'N') => Some(PostCodeArea::Swindon),
        ('S', 'O') => Some(PostCodeArea::Southampton),
        ('S', 'P') => Some(PostCodeArea::Salisbury),
        ('S', 'R') => Some(PostCodeArea::Sunderland),
        ('S', 'S') => Some(PostCodeArea::SouthendOnSea),
        ('S', 'T') => Some(PostCodeArea::StokeOnTrent),
        ('S', 'W') => Some(PostCodeArea::LondonSW),
        ('S', 'Y') => Some(PostCodeArea::Shrewsbury),
        ('T', 'A') => Some(PostCodeArea::Taunton),
        ('T', 'D') => Some(PostCodeArea::Galashiels),
        ('T', 'F') => Some(PostCodeArea::Telford),
        ('T', 'N') => Some(PostCodeArea::Tonbridge),
        ('T', 'Q') => Some(PostCodeArea::Torquay),
        ('T', 'R') => Some(PostCodeArea::Truro),
        ('T', 'S') => Some(PostCodeArea::Cleveland),
        ('T', 'W') => Some(PostCodeArea::Twickenham),
        ('U', 'B') => Some(PostCodeArea::Southall),
        ('W', 'A') => Some(PostCodeArea::Warrington),
        ('W', 'C') => Some(PostCodeArea::LondonWC),
        ('W', 'D') => Some(PostCodeArea::Watford),
        ('W', 'F') => Some(PostCodeArea::Wakefield),
        ('W', 'N') => Some(PostCodeArea::Wigan),
        ('W', 'R') => Some(PostCodeArea::Worcester),
        ('W', 'S') => Some(PostCodeArea::Walsall),
        ('W', 'V') => Some(PostCodeArea::Wolverhampton),
        ('Y', 'O') => Some(PostCodeArea::York),
        ('Z', 'E') => Some(PostCodeArea::Lerwick),
        _ => None,
    }
}

/// The area whose code is `code`, written in upper-case letters.
pub open spec fn area_of_code(code: Seq<char>) -> Option<PostCodeArea> {
    if code.len() == 1 {
        area_of_letter(code[0])
    } else if code.len() == 2 {
        area_of_letters(code[0], code[1])
    } else {
        None
    }
}

/// The text `s` with its ASCII letters made upper-case.
pub open spec fn upper_text(s: Seq<char>) -> Seq<char> {
    s.map_values(|c: char| ascii_upper(c))
}

/// What reading the area text `s` gives: the area whose code is `s`, whatever the case
/// of its letters.
pub open spec fn area_spec(s: Seq<char>) -> Result<PostCodeArea, AreaParseErrorView> {
    match area_of_code(upper_text(s)) {
        Some(a) => Ok(a),
        None => Err(AreaParseErrorView::UnknownArea(s)),
    }
}

/// `c` with an ASCII lower-case letter made upper-case.
fn to_ascii_upper(c: char) -> (r: char)
    ensures
        r == ascii_upper(c),
{
    if c >= 'a' && c <= 'z' {
        let b: u8 = c as u8;
        (b - 32) as char
    } else {
        c
    }
}

/// The area with the one-letter code `a`.
fn lookup_letter(a: char) -> (r: Option<PostCodeArea>)
    ensures
        r == area_of_letter(a),
{
    reveal(area_of_letter);
    match a {
        'B' => Some(PostCodeArea::Birmingham),
        'E' => Some(PostCodeArea::LondonE),
        'G' => Some(PostCodeArea::Glasgow),
        'L' => Some(PostCodeArea::Liverpool),
        'M' => Some(PostCodeArea::Manchester),
        'N' => Some(PostCodeArea::LondonN),
        'S' => Some(PostCodeArea::Sheffield),
        'W' => Some(PostCodeArea::LondonW),
        _ => None,
    }
}

/// The area with the two-letter code `a`, `b`.
fn lookup_letters(a: char, b: char) -> (r: Option<PostCodeArea>)
    ensures
        r == area_of_letters(a, b),
{
    reveal(area_of_letters);
    match (a, b) {
        ('A', 'B') => Some(PostCodeArea::Aberdeen),
        ('A', 'L') => Some(PostCodeArea::StAlbans),
        ('B', 'A') => Some(PostCodeArea::Bath),
        ('B', 'B') => Some(PostCodeArea::Blackburn),
        ('B', 'D') => Some(PostCodeArea::Bradford),
        ('B', 'H') => Some(PostCodeArea::Bournemouth),
        ('B', 'L') => Some(PostCodeArea::Bolton),
        ('B', 'N') => Some(PostCodeArea::Brighton),
        ('B', 'R') => Some(PostCodeArea::Bromley),
        ('B', 'S') => Some(PostCodeArea::Bristol),
        ('B', 'T') => Some(PostCodeArea::Belfast),
        ('C', 'A') => Some(PostCodeArea::Carlisle),
        ('C', 'B') => Some(PostCodeArea::Cambridge),
        ('C', 'F') => Some(PostCodeArea::Cardiff),
        ('C', 'H') => Some(PostCodeArea::Chester),
        ('C', 'M') => Some(PostCodeArea::Chelmsford),
        ('C', 'O') => Some(PostCodeArea::Colchester),
        ('C', 'R') => Some(PostCodeArea::Croydon),
        ('C', 'T') => Some(PostCodeArea::Canterbury),
        ('C', 'V') => Some(PostCodeArea::Coventry),
        ('C', 'W') => Some(PostCodeArea::Crewe),
        ('D', 'A') => Some(PostCodeArea::Dartford),
        ('D', 'D') => Some(PostCodeArea::Dundee),
        ('D', 'E') => Some(PostCodeArea::Derby),
        ('D', 'G') => Some(PostCodeArea::Dumfries),
        ('D', 'H') => Some(PostCodeArea::Durham),
        ('D', 'L') => Some(PostCodeArea::Darlington),
        ('D', 'N') => Some(PostCodeArea::Doncaster),
        ('D', 'T') => Some(PostCodeArea::Dorchester),
        ('D', 'Y') => Some(PostCodeArea::Dudley),
        ('E', 'C') => Some(PostCodeArea::LondonEC),
        ('E', 'H') => Some(PostCodeArea::Edinburgh),
        ('E', 'N') => Some(PostCodeArea::Enfield),
        ('E', 'X') => Some(PostCodeArea::Exeter),
        ('F', 'K') => Some(PostCodeArea::Falkirk),
        ('F', 'Y') => Some(PostCodeArea::Blackpool),
        ('G', 'L') => Some(PostCodeArea::Gloucester),
        ('G', 'U') => Some(PostCodeArea::Guildford),
        ('G', 'Y') => Some(PostCodeArea::Guernsey),
        ('H', 'A') => Some(PostCodeArea::Harrow),
        ('H', 'D') => Some(PostCodeArea::Huddersfield),
        ('H', 'G') => Some(PostCodeArea::Harrogate),
        ('H', 'P') => Some(PostCodeArea::HemelHempstead),
        ('H', 'R') => Some(PostCodeArea::Hereford),
        ('H', 'S') => Some(PostCodeArea::OuterHebrides),
        ('H', 'U') => Some(PostCodeArea::Hull),
        ('H', 'X') => Some(PostCodeArea::Halifax),
        ('I', 'G') => Some(PostCodeArea::Ilford),
        ('I', 'M') => Some(PostCodeArea::IsleOfMan),
        ('I', 'P') => Some(PostCodeArea::Ipswich),
        ('I', 'V') => Some(PostCodeArea::Inverness),
        ('J', 'E') => Some(PostCodeArea::Jersey),
        ('K', 'A') => Some(PostCodeArea::Kilmarnock),
        ('K', 'T') => Some(PostCodeArea::KingstonUponThames),
        ('K', 'W') => Some(PostCodeArea::Kirkwall),
        ('K', 'Y') => Some(PostCodeArea::Kirkcaldy),
        ('L', 'A') => Some(PostCodeArea::Lancaster),
        ('L', 'D') => Some(PostCodeArea::LlandrindodWells),
        ('L', 'E') => Some(PostCodeArea::Leicester),
        ('L', 'L') => Some(PostCodeArea::Llandudno),
        ('L', 'N') => Some(PostCodeArea::Lincoln),
        ('L', 'S') => Some(PostCodeArea::Leeds),
        ('L', 'U') => Some(PostCodeArea::Luton),
        ('M', 'E') => Some(PostCodeArea::Rochester),
        ('M', 'K') => Some(PostCodeArea::MiltonKeynes),
        ('M', 'L') => Some(PostCodeArea::Motherwell),
        ('N', 'E') => Some(PostCodeArea::Newcastle),
        ('N', 'G') => Some(PostCodeArea::Nottingham),
        ('N', 'N') => Some(PostCodeArea::Northampton),
        ('N', 'P') => Some(PostCodeArea::Newport),
        ('N', 'R') => Some(PostCodeArea::Norwich),
        ('N', 'W') => Some(PostCodeArea::LondonNW),
        ('O', 'L') => Some(PostCodeArea::Oldham),
        ('O', 'X') => Some(PostCodeArea::Oxford),
        ('P', 'A') => Some(PostCodeArea::Paisley),
        ('P', 'E') => Some(PostCodeArea::Peterborough),
        ('P', 'H') => Some(PostCodeArea::Perth),
        ('P', 'L') => Some(PostCodeArea::Plymouth),
        ('P', 'O') => Some(PostCodeArea::Portsmouth),
        ('P', 'R') => Some(PostCodeArea::Preston),
        ('R', 'G') => Some(PostCodeArea::Reading),
        ('R', 'H') => Some(PostCodeArea::Redhill),
        ('R', 'M') => Some(PostCodeArea::Romford),
        ('S', 'A') => Some(PostCodeArea::Swansea),
        ('S', 'E') => Some(PostCodeArea::LondonSE),
        ('S', 'G') => Some(PostCodeArea::Stevenage),
        ('S', 'K') => Some(PostCodeArea::Stockport),
        ('S', 'L') => Some(PostCodeArea::Slough),
        ('S', 'M') => Some(PostCodeArea::Sutton),
        ('S', 'N') => Some(PostCodeArea::Swindon),
        ('S', 'O') => Some(PostCodeArea::Southampton),
        ('S', 'P') => Some(PostCodeArea::Salisbury),
        ('S', 'R') => Some(PostCodeArea::Sunderland),
        ('S', 'S') => Some(PostCodeArea::SouthendOnSea),
        ('S', 'T') => Some(PostCodeArea::StokeOnTrent),
        ('S', 'W') => Some(PostCodeArea::LondonSW),
        ('S', 'Y') => Some(PostCodeArea::Shrewsbury),
        ('T', 'A') => Some(PostCodeArea::Taunton),
        ('T', 'D') => Some(PostCodeArea::Galashiels),
        ('T', 'F') => Some(PostCodeArea::Telford),
        ('T', 'N') => Some(PostCodeArea::Tonbridge),
        ('T', 'Q') => Some(PostCodeArea::Torquay),
        ('T', 'R') => Some(PostCodeArea::Truro),
        ('T', 'S') => Some(PostCodeArea::Cleveland),
        ('T', 'W') => Some(PostCodeArea::Twickenham),
        ('U', 'B') => Some(PostCodeArea::Southall),
        ('W', 'A') => Some(PostCodeArea::Warrington),
        ('W', 'C') => Some(PostCodeArea::LondonWC),
        ('W', 'D') => Some(PostCodeArea::Watford),
        ('W', 'F') => Some(PostCodeArea::Wakefield),
        ('W', 'N') => Some(PostCodeArea::Wigan),
        ('W', 'R') => Some(PostCodeArea::Worcester),
        ('W', 'S') => Some(PostCodeArea::Walsall),
        ('W', 'V') => Some(PostCodeArea::Wolverhampton),
        ('Y', 'O') => Some(PostCodeArea::York),
        ('Z', 'E') => Some(PostCodeArea::Lerwick),
        _ => None,
    }
}

impl PostCodeArea {
    /// Reads an area from its one- or two-letter code, in any case.
    pub fn new(s: &str) -> (r: Result<Self, AreaParseError>)
        ensures
            crate::result_view(r) == area_spec(s@),
    {
        let chars = chars_of(s);
        let found = if chars.len() == 1 {
            lookup_letter(to_ascii_upper(chars[0]))
        } else if chars.len() == 2 {
            let a = to_ascii_upper(chars[0]);
            let b = to_ascii_upper(chars[1]);
            lookup_letters(a, b)
        } else {
            None
        };
        match found {
            Some(area) => Ok(area),
            None => Err(AreaParseError::UnknownArea(s.to_owned())),
        }
    }
}

/// The code of each area: one or two capital letters.
pub open spec fn area_code(a: PostCodeArea) -> Seq<char> {
    match a {
        PostCodeArea::Birmingham => seq!['B'],
        PostCodeArea::LondonE => seq!['E'],
        PostCodeArea::Glasgow => seq!['G'],
        PostCodeArea::Liverpool => seq!['L'],
        PostCodeArea::Manchester => seq!['M'],
        PostCodeArea::LondonN => seq!['N'],
        PostCodeArea::Sheffield => seq!['S'],
        PostCodeArea::LondonW => seq!['W'],
        PostCodeArea::Aberdeen => seq!['A', 'B'],
        PostCodeArea::StAlbans => seq!['A', 'L'],
        PostCodeArea::Bath => seq!['B', 'A'],
        PostCodeArea::Blackburn => seq!['B', 'B'],
        PostCodeArea::Bradford => seq!['B', 'D'],
        PostCodeArea::Bournemouth => seq!['B', 'H'],
        PostCodeArea::Bolton => seq!['B', 'L'],
        PostCodeArea::Brighton => seq!['B', 'N'],
        PostCodeArea::Bromley => seq!['B', 'R'],
        PostCodeArea::Bristol => seq!['B', 'S'],
        PostCodeArea::Belfast => seq!['B', 'T'],
        PostCodeArea::Carlisle => seq!['C', 'A'],
        PostCodeArea::Cambridge => seq!['C', 'B'],
        PostCodeArea::Cardiff => seq!['C', 'F'],
        PostCodeArea::Chester => seq!['C', 'H'],
        PostCodeArea::Chelmsford => seq!['C', 'M'],
        PostCodeArea::Colchester => seq!['C', 'O'],
        PostCodeArea::Croydon => seq!['C', 'R'],
        PostCodeArea::Canterbury => seq!['C', 'T'],
        PostCodeArea::Coventry => seq!['C', 'V'],
        PostCodeArea::Crewe => seq!['C', 'W'],
        PostCodeArea::Dartford => seq!['D', 'A'],
        PostCodeArea::Dundee => seq!['D', 'D'],
        PostCodeArea::Derby => seq!['D', 'E'],
        PostCodeArea::Dumfries => seq!['D', 'G'],
        PostCodeArea::Durham => seq!['D', 'H'],
        PostCodeArea::Darlington => seq!['D', 'L'],
        PostCodeArea::Doncaster => seq!['D', 'N'],
        PostCodeArea::Dorchester => seq!['D', 'T'],
        PostCodeArea::Dudley => seq!['D', 'Y'],
        PostCodeArea::LondonEC => seq!['E', 'C'],
        PostCodeArea::Edinburgh => seq!['E', 'H'],
        PostCodeArea::Enfield => seq!['E', 'N'],
        PostCodeArea::Exeter => seq!['E', 'X'],
        PostCodeArea::Falkirk => seq!['F', 'K'],
        PostCodeArea::Blackpool => seq!['F', 'Y'],
        PostCodeArea::Gloucester => seq!['G', 'L'],
        PostCodeArea::Guildford => seq!['G', 'U'],
        PostCodeArea::Guernsey => seq!['G', 'Y'],
        PostCodeArea::Harrow => seq!['H', 'A'],
        PostCodeArea::Huddersfield => seq!['H', 'D'],
        PostCodeArea::Harrogate => seq!['H', 'G'],
        PostCodeArea::HemelHempstead => seq!['H', 'P'],
        PostCodeArea::Hereford => seq!['H', 'R'],
        PostCodeArea::OuterHebrides => seq!['H', 'S'],
        PostCodeArea::Hull => seq!['H', 'U'],
        PostCodeArea::Halifax => seq!['H', 'X'],
        PostCodeArea::Ilford => seq!['I', 'G'],
        PostCodeArea::IsleOfMan => seq!['I', 'M'],
        PostCodeArea::Ipswich => seq!['I', 'P'],
        PostCodeArea::Inverness => seq!['I', 'V'],
        PostCodeArea::Jersey => seq!['J', 'E'],
        PostCodeArea::Kilmarnock => seq!['K', 'A'],
        PostCodeArea::KingstonUponThames => seq!['K', 'T'],
        PostCodeArea::Kirkwall => seq!['K', 'W'],
        PostCodeArea::Kirkcaldy => seq!['K', 'Y'],
        PostCodeArea::Lancaster => seq!['L', 'A'],
        PostCodeArea::LlandrindodWells => seq!['L', 'D'],
        PostCodeArea::Leicester => seq!['L', 'E'],
        PostCodeArea::Llandudno => seq!['L', 'L'],
        PostCodeArea::Lincoln => seq!['L', 'N'],
        PostCodeArea::Leeds => seq!['L', 'S'],
        PostCodeArea::Luton => seq!['L', 'U'],
        PostCodeArea::Rochester => seq!['M', 'E'],
        PostCodeArea::MiltonKeynes => seq!['M', 'K'],
        PostCodeArea::Motherwell => seq!['M', 'L'],
        PostCodeArea::Newcastle => seq!['N', 'E'],
        PostCodeArea::Nottingham => seq!['N', 'G'],
        PostCodeArea::Northampton => seq!['N', 'N'],
        PostCodeArea::Newport => seq!['N', 'P'],
        PostCodeArea::Norwich => seq!['N', 'R'],
        PostCodeArea::LondonNW => seq!['N', 'W'],
        PostCodeArea::Oldham => seq!['O', 'L'],
        PostCodeArea::Oxford => seq!['O', 'X'],
        PostCodeArea::Paisley => seq!['P', 'A'],
        PostCodeArea::Peterborough => seq!['P', 'E'],
        PostCodeArea::Perth => seq!['P', 'H'],
        PostCodeArea::Plymouth => seq!['P', 'L'],
        PostCodeArea::Portsmouth => seq!['P', 'O'],
        PostCodeArea::Preston => seq!['P', 'R'],
        PostCodeArea::Reading => seq!['R', 'G'],
        PostCodeArea::Redhill => seq!['R', 'H'],
        PostCodeArea::Romford => seq!['R', 'M'],
        PostCodeArea::Swansea => seq!['S', 'A'],
        PostCodeArea::LondonSE => seq!['S', 'E'],
        PostCodeArea::Stevenage => seq!['S', 'G'],
        PostCodeArea::Stockport => seq!['S', 'K'],
        PostCodeArea::Slough => seq!['S', 'L'],
        PostCodeArea::Sutton => seq!['S', 'M'],
        PostCodeArea::Swindon => seq!['S', 'N'],
        PostCodeArea::Southampton => seq!['S', 'O'],
        PostCodeArea::Salisbury => seq!['S', 'P'],
        PostCodeArea::Sunderland => seq!['S', 'R'],
        PostCodeArea::SouthendOnSea => seq!['S', 'S'],
        PostCodeArea::StokeOnTrent => seq!['S', 'T'],
        PostCodeArea::LondonSW => seq!['S', 'W'],
        PostCodeArea::Shrewsbury => seq!['S', 'Y'],
        PostCodeArea::Taunton => seq!['T', 'A'],
        PostCodeArea::Galashiels => seq!['T', 'D'],
        PostCodeArea::Telford => seq!['T', 'F'],
        PostCodeArea::Tonbridge => seq!['T', 'N'],
        PostCodeArea::Torquay => seq!['T', 'Q'],
        PostCodeArea::Truro => seq!['T', 'R'],
        PostCodeArea::Cleveland => seq!['T', 'S'],
        PostCodeArea::Twickenham => seq!['T', 'W'],
        PostCodeArea::Southall => seq!['U', 'B'],
        PostCodeArea::Warrington => seq!['W', 'A'],
        PostCodeArea::LondonWC => seq!['W', 'C'],
        PostCodeArea::Watford => seq!['W', 'D'],
        PostCodeArea::Wakefield => seq!['W', 'F'],
        PostCodeArea::Wigan => seq!['W', 'N'],
        PostCodeArea::Worcester => seq!['W', 'R'],
        PostCodeArea::Walsall => seq!['W', 'S'],
        PostCodeArea::Wolverhampton => seq!['W', 'V'],
        PostCodeArea::York => seq!['Y', 'O'],
        PostCodeArea::Lerwick => seq!['Z', 'E'],
    }
}

/// Every area is read from its code, and from no other code in capitals: the table of
/// codes is one to one.
#[verifier::rlimit(50)]
pub proof fn lemma_area_codes(a: PostCodeArea, code: Seq<char>)
    ensures
        area_of_code(area_code(a)) == Some(a),
        area_of_code(code) == Some(a) ==> code == area_code(a),
{
    reveal(area_of_letter);
    reveal(area_of_letters);
    if area_of_code(code) == Some(a) {
        if code.len() == 1 {
            assert(code =~= seq![code[0]]);
        } else {
            assert(code =~= seq![code[0], code[1]]);
        }
    }
}

/// Upper-casing moves exactly the ASCII lower-case letters, each to its capital 32
/// code points below, and leaves every other character as it is.
pub proof fn lemma_ascii_upper(c: char)
    ensures
        'a' <= c <= 'z' ==> ascii_upper(c) as u32 + 32 == c as u32 && 'A' <= ascii_upper(c)
            <= 'Z',
        !('a' <= c <= 'z') ==> ascii_upper(c) == c,
{
}

/// The capital of `c` when `c` is an ASCII lower-case letter, else `c`, by code points.
pub open spec fn capital_of(c: char) -> char {
    if 97 <= c as u32 <= 122 {
        ((c as u32) - 32) as char
    } else {
        c
    }
}

/// A code reads as the same area as the code with its lower-case ASCII letters
/// replaced by their capitals (`n` as `N`, `sw` as `SW`); with no area, both are
/// refused.
pub proof fn lemma_area_reads_as_capitals(s: Seq<char>, t: Seq<char>)
    requires
        s.len() == t.len(),
        forall|i: int| 0 <= i < s.len() ==> t[i] == capital_of(#[trigger] s[i]),
    ensures
        area_spec(s) is Ok <==> area_spec(t) is Ok,
        area_spec(s) is Ok ==> area_spec(s) == area_spec(t),
{
    assert(upper_text(s) =~= upper_text(t)) by {
        assert forall|i: int| 0 <= i < s.len() implies upper_text(s)[i] == upper_text(t)[i] by {
            lemma_ascii_upper(s[i]);
            lemma_ascii_upper(t[i]);
        }
    }
}

/// Areas are read without regard to the case of their letters: two texts that agree
/// once upper-cased name the same area, or both no area.
pub proof fn lemma_area_case_insensitive(s: Seq<char>, t: Seq<char>)
    requires
        upper_text(s) == upper_text(t),
    ensures
        area_spec(s) is Ok <==> area_spec(t) is Ok,
        area_spec(s) is Ok ==> area_spec(s) == area_spec(t),
{
}

} // verus!
