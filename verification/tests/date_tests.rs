use h_bank::dates::{compute_age, today};
use h_bank::{CivilDate, Terms};

#[test]
fn age_counts_completed_years() {
    let birth = CivilDate::new(2000, 100);
    assert_eq!(compute_age(birth, CivilDate::new(2017, 100)), 17);
    assert_eq!(compute_age(birth, CivilDate::new(2017, 99)), 16);
    assert_eq!(compute_age(birth, CivilDate::new(2017, 101)), 17);
    assert_eq!(compute_age(birth, CivilDate::new(2000, 100)), 0);
}

#[test]
fn year_end_birthday_wraps() {
    // Born on the last day of a year: the day before the anniversary still
    // counts the previous age.
    let birth = CivilDate::new(1999, 365);
    assert_eq!(compute_age(birth, CivilDate::new(2016, 364)), 16);
    assert_eq!(compute_age(birth, CivilDate::new(2016, 365)), 17);
}

#[test]
fn today_is_a_civil_date() {
    let d = today();
    assert!((1..=366).contains(&d.ordinal));
    assert!(d.year >= 1970);
}

#[test]
fn default_terms_are_empty() {
    let t = Terms::default();
    assert!(t.data_borrowers_full_list.is_none());
    assert!(t.data_request_explanation.is_none());
    assert!(t.data_request_purpose_executive_summary.is_none());
}
