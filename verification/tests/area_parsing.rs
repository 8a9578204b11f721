use gb_postcode::outward::areas::AreaParseError;
use gb_postcode::PostCodeArea;

#[test]
fn parses_single_char_areas() {
    assert_eq!(PostCodeArea::new("B").unwrap(), PostCodeArea::Birmingham);
    assert_eq!(PostCodeArea::new("E").unwrap(), PostCodeArea::LondonE);
    assert_eq!(PostCodeArea::new("G").unwrap(), PostCodeArea::Glasgow);
    assert_eq!(PostCodeArea::new("L").unwrap(), PostCodeArea::Liverpool);
    assert_eq!(PostCodeArea::new("M").unwrap(), PostCodeArea::Manchester);
    assert_eq!(PostCodeArea::new("N").unwrap(), PostCodeArea::LondonN);
    assert_eq!(PostCodeArea::new("S").unwrap(), PostCodeArea::Sheffield);
    assert_eq!(PostCodeArea::new("W").unwrap(), PostCodeArea::LondonW);
}

#[test]
fn parses_two_char_areas() {
    assert_eq!(PostCodeArea::new("SW").unwrap(), PostCodeArea::LondonSW);
    assert_eq!(PostCodeArea::new("EC").unwrap(), PostCodeArea::LondonEC);
    assert_eq!(PostCodeArea::new("NW").unwrap(), PostCodeArea::LondonNW);
    assert_eq!(PostCodeArea::new("WC").unwrap(), PostCodeArea::LondonWC);
    assert_eq!(PostCodeArea::new("AB").unwrap(), PostCodeArea::Aberdeen);
    assert_eq!(PostCodeArea::new("EH").unwrap(), PostCodeArea::Edinburgh);
}

#[test]
fn parses_area_case_insensitively() {
    assert_eq!(PostCodeArea::new("sw").unwrap(), PostCodeArea::LondonSW);
    assert_eq!(PostCodeArea::new("Sw").unwrap(), PostCodeArea::LondonSW);
    assert_eq!(PostCodeArea::new("b").unwrap(), PostCodeArea::Birmingham);
    assert_eq!(PostCodeArea::new("eh").unwrap(), PostCodeArea::Edinburgh);
}

#[test]
fn rejects_unknown_area_code() {
    assert!(PostCodeArea::new("ZZ").is_err());
    assert!(PostCodeArea::new("XX").is_err());
    assert!(PostCodeArea::new("QQ").is_err());
}

#[test]
fn rejects_empty_area_code() {
    assert!(PostCodeArea::new("").is_err());
}

#[test]
fn rejects_numeric_area_code() {
    assert!(PostCodeArea::new("12").is_err());
    assert!(PostCodeArea::new("1").is_err());
}

#[test]
fn unknown_area_error_carries_the_text() {
    match PostCodeArea::new("zQ") {
        Err(AreaParseError::UnknownArea(s)) => assert_eq!(s, "zQ"),
        other => panic!("unexpected {:?}", other),
    }
    match PostCodeArea::new("ABC") {
        Err(AreaParseError::UnknownArea(s)) => assert_eq!(s, "ABC"),
        other => panic!("unexpected {:?}", other),
    }
}

#[test]
fn area_lookup_covers_other_areas() {
    assert_eq!(PostCodeArea::new("BD").unwrap(), PostCodeArea::Bradford);
    assert_eq!(PostCodeArea::new("ze").unwrap(), PostCodeArea::Lerwick);
    assert_eq!(PostCodeArea::new("Se").unwrap(), PostCodeArea::LondonSE);
    assert_eq!(PostCodeArea::new("yO").unwrap(), PostCodeArea::York);
}

#[test]
fn area_case_insensitivity_on_every_case_mix() {
    for code in ["ab", "aB", "Ab", "AB"] {
        assert_eq!(PostCodeArea::new(code).unwrap(), PostCodeArea::Aberdeen);
    }
}
