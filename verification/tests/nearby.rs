use gb_postcode::nearby::first_present;
use gb_postcode::nearby::nearby_candidates;
use gb_postcode::nearby::next_letter;

#[test]
fn next_letter_advances_and_wraps() {
    assert_eq!(next_letter(b'A'), b'B');
    assert_eq!(next_letter(b'Y'), b'Z');
    assert_eq!(next_letter(b'Z'), b'A');
    assert_eq!(next_letter(b'a'), b'A');
}

#[test]
fn candidates_are_the_later_units() {
    let c = nearby_candidates("AB1 2YY");
    assert_eq!(c.len(), 27);
    assert_eq!(c[0], "AB1 2YZ");
    assert_eq!(c[1], "AB1 2ZA");
    assert_eq!(c[26], "AB1 2ZZ");
    let c = nearby_candidates("AB1 2AA");
    assert_eq!(c.len(), 675);
    assert_eq!(c[0], "AB1 2AB");
    assert_eq!(c[25], "AB1 2BA");
    for w in c.windows(2) {
        assert!(w[0] < w[1]);
    }
}

#[test]
fn no_candidates_after_the_last_unit_or_without_letters() {
    assert!(nearby_candidates("AB1 2ZZ").is_empty());
    assert!(nearby_candidates("AB1 23A").is_empty());
    assert!(nearby_candidates("A").is_empty());
    assert!(nearby_candidates("AB1 2Aé").is_empty());
}

#[test]
fn lowercase_units_restart_from_a() {
    // a lower-case second letter wraps straight to `A`, moving the first letter on
    let c = nearby_candidates("AB1 2Ba");
    assert_eq!(c[0], "AB1 2CA");
    assert_eq!(c.len(), 24 * 26);
    // a lower-case first letter that wraps ends the search
    assert!(nearby_candidates("AB1 2aZ").is_empty());
}

#[test]
fn first_present_candidate() {
    assert_eq!(first_present(&vec![false, false, true, true]), Some(2));
    assert_eq!(first_present(&vec![true]), Some(0));
    assert_eq!(first_present(&vec![false, false]), None);
    assert_eq!(first_present(&vec![]), None);
}
