use gb_postcode::digit::Digit;
use gb_postcode::outward::district::DistrictParseError;
use gb_postcode::outward::district::PostCodeDistrict;

#[test]
fn parses_single_digit_district() {
    let district = PostCodeDistrict::new("1").unwrap();
    assert!(matches!(district, PostCodeDistrict::Normal(1)));
}

#[test]
fn parses_two_digit_district() {
    let district = PostCodeDistrict::new("12").unwrap();
    assert!(
        matches!(district, PostCodeDistrict::Normal(12)),
        "given {}",
        district.to_display_string()
    );
}

#[test]
fn parses_irregular_district_with_letter_suffix() {
    let district = PostCodeDistrict::new("1A").unwrap();
    let digit = Digit::try_from(1).unwrap();
    assert!(matches!(district, PostCodeDistrict::Irregular(digit, 'A')));
}

#[test]
fn rejects_empty_district() {
    let result = PostCodeDistrict::new("");
    assert!(matches!(result, Err(DistrictParseError::InvalidLength(0))));
}

#[test]
fn rejects_district_longer_than_two_chars() {
    let result = PostCodeDistrict::new("123");
    assert!(matches!(result, Err(DistrictParseError::InvalidLength(3))));
}

#[test]
fn rejects_non_numeric_first_char() {
    let result = PostCodeDistrict::new("A1");
    assert!(matches!(
        result,
        Err(DistrictParseError::FirstCharNumParseError(_))
    ));
}

#[test]
fn district_first_char_error_names_the_char() {
    assert!(matches!(
        PostCodeDistrict::new("x"),
        Err(DistrictParseError::FirstCharNumParseError('x'))
    ));
}

#[test]
fn district_length_counts_characters() {
    // 'é' is one character of two bytes: the length is accepted, the digit is not.
    assert!(matches!(
        PostCodeDistrict::new("é"),
        Err(DistrictParseError::FirstCharNumParseError('é'))
    ));
    assert!(matches!(
        PostCodeDistrict::new("€"),
        Err(DistrictParseError::FirstCharNumParseError('€'))
    ));
    // two characters, three bytes: a digit and a letter
    match PostCodeDistrict::new("1é") {
        Ok(PostCodeDistrict::Irregular(d, c)) => {
            assert_eq!(d, Digit::try_from(1).unwrap());
            assert_eq!(c, 'é');
        }
        other => panic!("unexpected {:?}", other),
    }
    match PostCodeDistrict::new("1€") {
        Err(DistrictParseError::StrParseError(s)) => assert_eq!(s, "1€"),
        other => panic!("unexpected {:?}", other),
    }
}

#[test]
fn district_with_other_second_char_is_refused() {
    match PostCodeDistrict::new("1-") {
        Err(DistrictParseError::StrParseError(s)) => assert_eq!(s, "1-"),
        other => panic!("unexpected {:?}", other),
    }
}

#[test]
fn district_values() {
    assert!(matches!(PostCodeDistrict::new("7"), Ok(PostCodeDistrict::Normal(7))));
    assert!(matches!(PostCodeDistrict::new("05"), Ok(PostCodeDistrict::Normal(5))));
    assert!(matches!(PostCodeDistrict::new("99"), Ok(PostCodeDistrict::Normal(99))));
    match PostCodeDistrict::new("3w") {
        Ok(PostCodeDistrict::Irregular(d, c)) => {
            assert_eq!(d, Digit::try_from(3).unwrap());
            assert_eq!(c, 'w');
        }
        other => panic!("unexpected {:?}", other),
    }
}

#[test]
fn district_display() {
    assert_eq!(PostCodeDistrict::new("12").unwrap().to_display_string(), "12");
    assert_eq!(PostCodeDistrict::new("05").unwrap().to_display_string(), "5");
    assert_eq!(PostCodeDistrict::new("1A").unwrap().to_display_string(), "1A");
    assert_eq!(PostCodeDistrict::Normal(4000000000).to_display_string(), "4000000000");
    assert_eq!(PostCodeDistrict::Normal(0).to_display_string(), "0");
}

#[test]
fn district_display_reads_back() {
    for text in ["0", "9", "05", "10", "42", "99", "1A", "7z"] {
        let d = PostCodeDistrict::new(text).unwrap();
        let again = PostCodeDistrict::new(&d.to_display_string()).unwrap();
        assert_eq!(d.to_display_string(), again.to_display_string());
        match (d, again) {
            (PostCodeDistrict::Normal(a), PostCodeDistrict::Normal(b)) => assert_eq!(a, b),
            (PostCodeDistrict::Irregular(a, x), PostCodeDistrict::Irregular(b, y)) => {
                assert_eq!(a, b);
                assert_eq!(x, y);
            }
            _ => panic!("district changed kind"),
        }
    }
}
