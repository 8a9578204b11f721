use gb_postcode::digit::Digit;
use gb_postcode::digit::DigitParseError;
use gb_postcode::inward::InwardCodeParseError;
use gb_postcode::outward::OutwardCodeParseError;
use gb_postcode::InwardCode;
use gb_postcode::PostCode;
use gb_postcode::PostCodeArea;
use gb_postcode::PostCodeDistrict;
use gb_postcode::PostcodeParseError;

#[test]
fn readme_example() {
    let postcode = PostCode::new("BD1 1AF".to_string()).unwrap();
    assert_eq!(*postcode.area(), PostCodeArea::Bradford);
    assert!(matches!(postcode.district(), PostCodeDistrict::Normal(1)));
    assert_eq!(postcode.sector(), Digit::try_from(1).unwrap());
    assert_eq!(postcode.unit(), "AF");
    assert_eq!(postcode.as_str(), "BD1 1AF");
    assert_eq!(postcode.inward_code().unit, "AF");
    assert_eq!(postcode.outward_code().area, PostCodeArea::Bradford);
    // the accessors give the fields
    assert_eq!(postcode.sector(), postcode.inward_code.sector);
    assert_eq!(postcode.unit(), postcode.inward_code.unit.as_str());
    assert_eq!(*postcode.area(), postcode.outward_code.area);
}

#[test]
fn trailing_whitespace_and_punctuation_are_dropped() {
    let postcode = PostCode::new("SW1A 2AA \t.,!".to_string()).unwrap();
    assert_eq!(postcode.as_str(), "SW1A 2AA");
    assert_eq!(*postcode.area(), PostCodeArea::LondonSW);
    assert!(matches!(postcode.district(), PostCodeDistrict::Irregular(_, 'A')));
}

#[test]
fn postcode_length_counts_characters() {
    // eight characters, nine bytes
    assert!(matches!(
        PostCode::new("BD1 1AFé".to_string()),
        Err(PostcodeParseError::InwardCodeParseError(_, InwardCodeParseError::UnexpectedLength(5, _)))
    ));
}

#[test]
fn postcode_length_is_checked_after_trimming() {
    match PostCode::new("B1 1A ".to_string()) {
        Err(PostcodeParseError::InvalidLength(s, n)) => {
            assert_eq!(s, "B1 1A");
            assert_eq!(n, 5);
        }
        other => panic!("unexpected {:?}", other),
    }
    assert!(matches!(
        PostCode::new("AB10 1AAA".to_string()),
        Err(PostcodeParseError::InvalidLength(_, 9))
    ));
}

#[test]
fn postcode_needs_exactly_one_space() {
    match PostCode::new("BD11AF".to_string()) {
        Err(PostcodeParseError::InvalidSpaceCount(s, n)) => {
            assert_eq!(s, "BD11AF");
            assert_eq!(n, 0);
        }
        other => panic!("unexpected {:?}", other),
    }
    assert!(matches!(
        PostCode::new("SW1A1AA".to_string()),
        Err(PostcodeParseError::InvalidSpaceCount(_, 0))
    ));
    assert!(matches!(
        PostCode::new("B 1 1AF".to_string()),
        Err(PostcodeParseError::InvalidSpaceCount(_, 2))
    ));
}

#[test]
fn postcode_part_errors() {
    match PostCode::new("ZZ1 1AF".to_string()) {
        Err(PostcodeParseError::OutwardCodeParseError(s, OutwardCodeParseError::AreaParseError(_))) => {
            assert_eq!(s, "ZZ1 1AF")
        }
        other => panic!("unexpected {:?}", other),
    }
    assert!(matches!(
        PostCode::new("BD1 XAF".to_string()),
        Err(PostcodeParseError::InwardCodeParseError(_, InwardCodeParseError::FailedToParseAsNum('X')))
    ));
    assert!(matches!(
        PostCode::new("BD123 1A".to_string()),
        Err(PostcodeParseError::OutwardCodeParseError(_, OutwardCodeParseError::InvalidLength(5)))
    ));
}

#[test]
fn inward_letters_o_and_i_read_as_digits() {
    let p = PostCode::new("BD1 OAF".to_string()).unwrap();
    assert_eq!(p.sector(), Digit::try_from(0).unwrap());
    let p = PostCode::new("BD1 IAF".to_string()).unwrap();
    assert_eq!(p.sector(), Digit::try_from(1).unwrap());
    // the text keeps the letter
    assert_eq!(p.as_str(), "BD1 IAF");
}

#[test]
fn inward_code_errors() {
    match InwardCode::new("1A") {
        Err(InwardCodeParseError::UnexpectedLength(n, s)) => {
            assert_eq!(n, 2);
            assert_eq!(s, "1A");
        }
        other => panic!("unexpected {:?}", other),
    }
    let i = InwardCode::new("9ZZ").unwrap();
    assert_eq!(i.sector, Digit::try_from(9).unwrap());
    assert_eq!(i.unit, "ZZ");
}

#[test]
fn postcodes_compare_by_text() {
    let a = PostCode::new("BD1 1AF".to_string()).unwrap();
    let b = PostCode::new("BD1 1AF  ".to_string()).unwrap();
    let c = PostCode::new("BD1 1AG".to_string()).unwrap();
    assert!(a == b);
    assert!(a != c);
}

#[test]
fn reading_the_text_again_gives_the_same_postcode() {
    for text in ["BD1 1AF...", "ec1a 1bb", "M60 2LA ", "SW1A 2AA", "BD1 1é\u{A0}"] {
        let p = PostCode::new(text.to_string()).unwrap();
        let q = PostCode::new(p.as_str().to_string()).unwrap();
        assert!(p == q);
        assert_eq!(p.area(), q.area());
        assert_eq!(p.sector(), q.sector());
        assert_eq!(p.unit(), q.unit());
        assert_eq!(p.district().to_display_string(), q.district().to_display_string());
    }
}

#[test]
fn checked_new_refuses_a_single_wide_outward_character() {
    assert!(PostCode::checked_new("é 1AAA".to_string()).is_none());
    // five characters: refused for its length before the outward code is read
    assert!(matches!(
        PostCode::checked_new("é 1AA".to_string()),
        Some(Err(PostcodeParseError::InvalidLength(_, 5)))
    ));
    assert!(matches!(PostCode::checked_new("BD1 1AF".to_string()), Some(Ok(_))));
    assert!(matches!(
        PostCode::checked_new("BD11AF".to_string()),
        Some(Err(PostcodeParseError::InvalidSpaceCount(_, 0)))
    ));
}

#[test]
fn digits() {
    assert!(matches!(Digit::try_from(10), Err(DigitParseError::OutOfBounds(10))));
    assert!(matches!(Digit::try_from(255), Err(DigitParseError::OutOfBounds(255))));
    assert_eq!(Digit::try_from(7).unwrap().to_display_string(), "7");
    assert_eq!(Digit::try_from(0).unwrap().to_display_string(), "0");
}
