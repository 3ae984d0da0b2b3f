use h_bank::{CivilDate, Corporation, EntityId, Individual};

fn individual(name: &str, id: &str) -> Individual {
    Individual::new(
        name.to_string(),
        EntityId(id.to_string()),
        CivilDate::new(1980, 1),
    )
}

#[test]
fn hla_alleles_are_validated_by_shape() {
    assert!(Individual::validate_hla_alleles(&["A02:01", "B07:02", "C01:02"]));
    assert!(!Individual::validate_hla_alleles(&["A02:01", "bad"]));
    assert!(!Individual::validate_hla_alleles(&["a02:01"]));
    assert!(!Individual::validate_hla_alleles(&["A2:01"]));
    assert!(!Individual::validate_hla_alleles(&["A02-01"]));
    assert!(!Individual::validate_hla_alleles(&["A02:011"]));
    assert!(Individual::validate_hla_alleles(&[]));
}

#[test]
fn hla_profile_is_sorted_and_joined() {
    assert_eq!(
        Individual::create_sorted_hla_profile(&["B07:02", "A02:01", "C01:02"]),
        "A02:01,B07:02,C01:02"
    );
    assert_eq!(Individual::create_sorted_hla_profile(&[]), "");
    assert_eq!(Individual::create_sorted_hla_profile(&["A02:01"]), "A02:01");
}

#[test]
fn valid_hla_profile_is_recorded() {
    let mut p = individual("John Doe", "I-O123");
    p.add_hla_profile(vec!["B07:02", "A02:01"]);
    assert_eq!(p.hla_profile.as_deref(), Some("A02:01,B07:02"));
}

#[test]
fn invalid_hla_profile_is_ignored() {
    let mut p = individual("John Doe", "I-O123");
    p.add_hla_profile(vec!["A02:01", "oops"]);
    assert_eq!(p.hla_profile, None);
}

#[test]
fn blood_type_is_recorded() {
    let mut p = individual("John Doe", "I-O123");
    p.add_blood_type("A+");
    assert_eq!(p.blood_type.as_deref(), Some("A+"));
    assert_eq!(p.get_name(), "John Doe");
    assert_eq!(p.get_person_id().0, "I-O123");
}

#[test]
fn ein_format_is_validated() {
    assert!(Corporation::validate_ein_format("12-3456789"));
    assert!(!Corporation::validate_ein_format("123456789"));
    assert!(!Corporation::validate_ein_format("12-345678"));
    assert!(!Corporation::validate_ein_format("12-34567890"));
    assert!(!Corporation::validate_ein_format("ab-cdefghi"));
}

#[test]
fn valid_ein_is_recorded() {
    let mut c = Corporation::new("Data Custodian Inc.".to_string(), EntityId("C-C123".to_string()));
    c.add_tax_id("12-3456789");
    assert_eq!(c.tax_id.as_deref(), Some("12-3456789"));
    assert_eq!(c.get_name(), "Data Custodian Inc.");
    assert_eq!(c.get_person_id().0, "C-C123");
}

#[test]
fn invalid_ein_is_ignored() {
    let mut c = Corporation::new("Corp".to_string(), EntityId("C-1".to_string()));
    c.add_tax_id("nonsense");
    assert_eq!(c.tax_id, None);
}
