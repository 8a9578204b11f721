use gb_postcode::digit::Digit;
use gb_postcode::outward;
use gb_postcode::outward::areas::AreaParseError;
use gb_postcode::outward::district::DistrictParseError;
use gb_postcode::outward::district::PostCodeDistrict;
use gb_postcode::outward::OutwardCodeParseError;
use gb_postcode::PostCodeArea;

#[test]
fn parses_two_char_area_single_digit_district() {
    // e.g. SW1 1AA
    let outward = outward::OutwardCode::new("SW1").unwrap();
    assert_eq!(outward.area, PostCodeArea::LondonSW);
    assert!(matches!(outward.district, PostCodeDistrict::Normal(1)));
}

#[test]
fn parses_single_char_area_single_digit_district() {
    // e.g. B1 1AA
    let outward = outward::OutwardCode::new("B1").unwrap();
    assert_eq!(outward.area, PostCodeArea::Birmingham);
    assert!(matches!(outward.district, PostCodeDistrict::Normal(1)));
}

#[test]
fn parses_two_char_area_two_digit_district() {
    // e.g. AB10 1AA
    let outward = outward::OutwardCode::new("AB10").unwrap();
    assert_eq!(outward.area, PostCodeArea::Aberdeen);
    assert!(
        matches!(outward.district, PostCodeDistrict::Normal(10)),
        "given {}",
        outward.district.to_display_string()
    );
}

#[test]
fn parses_two_char_area_irregular_district() {
    // e.g. EC1A 1BB
    let outward = outward::OutwardCode::new("EC1A").unwrap();
    let digit = Digit::try_from(1).unwrap();

    assert_eq!(outward.area, PostCodeArea::LondonEC);
    assert!(matches!(
        outward.district,
        PostCodeDistrict::Irregular(digit, 'A')
    ));
}

#[test]
fn rejects_postcode_below_minimum_length() {
    // Fewer than 6 characters
    let result = outward::OutwardCode::new("B1 1A");
    assert!(matches!(
        result,
        Err(OutwardCodeParseError::InvalidLength(_))
    ));
}

#[test]
fn rejects_postcode_above_maximum_length() {
    // More than 8 characters
    let result = outward::OutwardCode::new("AB101 1AAA");
    assert!(matches!(
        result,
        Err(OutwardCodeParseError::InvalidLength(_))
    ));
}

#[test]
fn rejects_unknown_area_in_outward_code() {
    let result = outward::OutwardCode::new("ZZ1");
    assert!(matches!(
        result,
        Err(OutwardCodeParseError::AreaParseError(_))
    ));
}

#[test]
fn outward_length_errors_give_the_byte_count() {
    assert!(matches!(outward::OutwardCode::new("B"), Err(OutwardCodeParseError::InvalidLength(1))));
    assert!(matches!(outward::OutwardCode::new("B1 1A"), Err(OutwardCodeParseError::InvalidLength(5))));
}

#[test]
fn outward_area_error_carries_the_area_text() {
    match outward::OutwardCode::new("QQ12") {
        Err(OutwardCodeParseError::AreaParseError(AreaParseError::UnknownArea(s))) => assert_eq!(s, "QQ"),
        other => panic!("unexpected {:?}", other),
    }
    match outward::OutwardCode::new("Q1") {
        Err(OutwardCodeParseError::AreaParseError(AreaParseError::UnknownArea(s))) => assert_eq!(s, "Q"),
        other => panic!("unexpected {:?}", other),
    }
}

#[test]
fn outward_district_errors() {
    // a two-letter area leaves no district
    assert!(matches!(
        outward::OutwardCode::new("SW"),
        Err(OutwardCodeParseError::DistrictParseError(DistrictParseError::InvalidLength(0)))
    ));
    assert!(matches!(
        outward::OutwardCode::new("SWA"),
        Err(OutwardCodeParseError::DistrictParseError(DistrictParseError::FirstCharNumParseError('A')))
    ));
}

#[test]
fn outward_single_letter_area_with_two_digit_district() {
    let outward = outward::OutwardCode::new("m60").unwrap();
    assert_eq!(outward.area, PostCodeArea::Manchester);
    assert!(matches!(outward.district, PostCodeDistrict::Normal(60)));
}
