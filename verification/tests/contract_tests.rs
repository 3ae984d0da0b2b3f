use h_bank::{
    CivilDate, ContractCategory, ContractLegalFramework, Corporation, DataPrivacyLevel, EntityId,
    GeneratorRateSpecification, HealthDataContract, Individual, IndividualContributionLevel, Party,
    PartyType, Residuals, StorageExchangeLegalStructure, Terms, TransactionLegalStructure,
    TwoPartyLegalStructure, ValidationErrorKind,
};

fn party(name: &str, id: &str, role: PartyType) -> Party {
    Party::new(name.to_string(), EntityId(id.to_string()), role)
}

fn storage_category() -> ContractCategory {
    ContractCategory::TwoParty(TwoPartyLegalStructure::Storage_or_Exchange(
        StorageExchangeLegalStructure::AgentStorageAgreement {
            agent: party("Agent", "E1", PartyType::DataOriginator),
            h_bank: party("Bank", "E2", PartyType::HBank),
        },
    ))
}

fn direct_sale_category() -> ContractCategory {
    ContractCategory::ThreePlusParty(TransactionLegalStructure::DirectSale {
        agent_a: party("Custodian", "E1", PartyType::DataCustodian),
        agent_b: party("Recipient", "E2", PartyType::DataRecipient),
        generators: vec![party("Hospital", "E3", PartyType::DataGenerator)],
        h_bank: party("Bank", "E4", PartyType::HBank),
    })
}

fn empty_terms() -> Terms {
    Terms {
        data_borrowers_full_list: None,
        data_request_explanation: None,
        data_request_purpose_executive_summary: None,
    }
}

#[allow(clippy::too_many_arguments)]
fn contract(
    category: ContractCategory,
    generator_rate: Option<GeneratorRateSpecification>,
    residual_payments: Option<Residuals>,
    individual_contribution_level: Option<IndividualContributionLevel>,
    irb_required: bool,
    irb_approved: Option<bool>,
    individuals: Vec<Individual>,
    corporations: Vec<Corporation>,
) -> HealthDataContract {
    HealthDataContract::new(
        Vec::new(),
        category,
        ContractLegalFramework::CommonLaw,
        empty_terms(),
        generator_rate,
        residual_payments,
        individual_contribution_level,
        irb_required,
        irb_approved,
        "CT1".to_string(),
        None,
        DataPrivacyLevel::HIPPA_deidentified,
        individuals,
        corporations,
    )
}

#[test]
fn storage_exchange_roster_admitted_and_rate_consistency() {
    // Role-matching succeeds for [originator, clearing-entity].
    let mut c = contract(storage_category(), None, None, None, false, None, vec![], vec![]);
    let batch = vec![
        party("Marcus", "E1", PartyType::DataOriginator),
        party("Bank", "E2", PartyType::HBank),
    ];
    assert!(c.add_parties(batch).is_ok());

    // An originator is on the roster, so a contribution level is needed for
    // validation; pick data-only so the rate check is what decides.
    let mut ok = contract(storage_category(), None, None, Some(IndividualContributionLevel::DataOnly), false, None, vec![individual("Marcus", "E1", 1980, 10)], vec![]);
    ok.add_parties(vec![
        party("Marcus", "E1", PartyType::DataOriginator),
        party("Bank", "E2", PartyType::HBank),
    ])
    .unwrap();
    assert!(ok.validate_and_execute_contract().is_ok());

    // With a rate specified but no generator present, validation fails with
    // the generator-rate error.
    let mut bad = contract(
        storage_category(),
        Some(GeneratorRateSpecification::UsageRate(100)),
        None,
        Some(IndividualContributionLevel::DataOnly),
        false,
        None,
        vec![individual("Marcus", "E1", 1980, 10)],
        vec![],
    );
    bad.add_parties(vec![
        party("Marcus", "E1", PartyType::DataOriginator),
        party("Bank", "E2", PartyType::HBank),
    ])
    .unwrap();
    let err = bad.validate_and_execute_contract().unwrap_err();
    assert_eq!(err.kind, ValidationErrorKind::GeneratorRateInconsistent);
}

fn individual(name: &str, id: &str, year: i32, ordinal: u16) -> Individual {
    Individual::new(
        name.to_string(),
        EntityId(id.to_string()),
        CivilDate::new(year, ordinal),
    )
}

#[test]
fn direct_sale_without_clearing_entity_is_rejected() {
    let mut c = contract(direct_sale_category(), None, None, None, false, None, vec![], vec![]);
    let batch = vec![
        party("Custodian", "E1", PartyType::DataCustodian),
        party("Recipient", "E2", PartyType::DataRecipient),
        party("Hospital", "E3", PartyType::DataGenerator),
    ];
    let err = c.add_parties(batch).unwrap_err();
    assert_eq!(err.kind, ValidationErrorKind::RoleMismatch);
    // Nothing was committed.
    assert!(c.get_parties().is_empty());
}

#[test]
fn direct_sale_with_clearing_entity_is_admitted() {
    let mut c = contract(direct_sale_category(), None, None, None, false, None, vec![], vec![]);
    let batch = vec![
        party("Custodian", "E1", PartyType::DataCustodian),
        party("Recipient", "E2", PartyType::DataRecipient),
        party("Hospital", "E3", PartyType::DataGenerator),
        party("Bank", "E4", PartyType::HBank),
    ];
    assert!(c.add_parties(batch).is_ok());
    assert_eq!(c.get_parties().len(), 4);
}

#[test]
fn two_party_arity_is_exact() {
    let mut c = contract(storage_category(), None, None, None, false, None, vec![], vec![]);
    let err = c
        .add_parties(vec![
            party("Marcus", "E1", PartyType::DataOriginator),
            party("Bank", "E2", PartyType::HBank),
            party("Extra", "E3", PartyType::Donor),
        ])
        .unwrap_err();
    assert_eq!(err.kind, ValidationErrorKind::RoleMismatch);
}

#[test]
fn second_admission_is_checked_cumulatively() {
    // After a two-party roster is full, a further batch breaks the arity
    // bound even though the batch alone would once have passed.
    let mut c = contract(storage_category(), None, None, None, false, None, vec![], vec![]);
    c.add_parties(vec![
        party("Marcus", "E1", PartyType::DataOriginator),
        party("Bank", "E2", PartyType::HBank),
    ])
    .unwrap();
    let err = c
        .add_parties(vec![
            party("Second", "E5", PartyType::DataOriginator),
            party("Bank2", "E6", PartyType::HBank),
        ])
        .unwrap_err();
    assert_eq!(err.kind, ValidationErrorKind::RoleMismatch);
    assert_eq!(c.get_parties().len(), 2);

    // A three-plus-party roster keeps accepting parties once its minimum is
    // reached: the cumulative roster still satisfies every requirement.
    let mut sale = contract(direct_sale_category(), None, None, None, false, None, vec![], vec![]);
    sale.add_parties(vec![
        party("Custodian", "E1", PartyType::DataCustodian),
        party("Recipient", "E2", PartyType::DataRecipient),
        party("Hospital", "E3", PartyType::DataGenerator),
        party("Bank", "E4", PartyType::HBank),
    ])
    .unwrap();
    assert!(sale
        .add_parties(vec![party("Clinic", "E7", PartyType::DataGenerator)])
        .is_ok());
    assert_eq!(sale.get_parties().len(), 5);
}

#[test]
fn donation_requires_donor_and_clearing_entity() {
    let category = ContractCategory::TwoParty(TwoPartyLegalStructure::Donation(
        h_bank::DonationLegalStructure::PhilanthropicAgreement {
            donor: party("Giver", "E1", PartyType::Donor),
            h_bank: party("Bank", "E2", PartyType::HBank),
        },
    ));
    let mut c = contract(category, None, None, None, false, None, vec![], vec![]);
    let err = c
        .add_parties(vec![
            party("Marcus", "E1", PartyType::DataOriginator),
            party("Bank", "E2", PartyType::HBank),
        ])
        .unwrap_err();
    assert_eq!(err.kind, ValidationErrorKind::RoleMismatch);
    assert!(c
        .add_parties(vec![
            party("Giver", "E1", PartyType::Donor),
            party("Bank", "E2", PartyType::HBank),
        ])
        .is_ok());
}

#[test]
fn participation_requires_funder() {
    let category = ContractCategory::ThreePlusParty(TransactionLegalStructure::ParticipationAgreement {
        agents: vec![party("Marcus", "E1", PartyType::DataOriginator)],
        funders: vec![party("Foundation", "E5", PartyType::Funder)],
        generators: vec![party("Hospital", "E3", PartyType::DataGenerator)],
        h_bank: party("Bank", "E4", PartyType::HBank),
    });
    let mut c = contract(category, None, None, None, false, None, vec![], vec![]);
    let err = c
        .add_parties(vec![
            party("Marcus", "E1", PartyType::DataOriginator),
            party("Hospital", "E3", PartyType::DataGenerator),
            party("Bank", "E4", PartyType::HBank),
        ])
        .unwrap_err();
    assert_eq!(err.kind, ValidationErrorKind::RoleMismatch);
}

#[test]
fn contribution_level_must_match_originator_presence() {
    // Data-and-participation with no originator on the roster fails with the
    // contribution-level error.
    let category = ContractCategory::TwoParty(TwoPartyLegalStructure::Advertisement(
        h_bank::AdLegalStructure::AdvertiserAgreement {
            advertiser: party("Goog", "E1", PartyType::Advertiser),
            h_bank: party("Bank", "E2", PartyType::HBank),
        },
    ));
    let mut c = contract(
        category,
        None,
        None,
        Some(IndividualContributionLevel::DataAndParticipation),
        false,
        None,
        vec![],
        vec![],
    );
    c.add_parties(vec![
        party("Goog", "E1", PartyType::Advertiser),
        party("Bank", "E2", PartyType::HBank),
    ])
    .unwrap();
    let err = c.validate_and_execute_contract().unwrap_err();
    assert_eq!(err.kind, ValidationErrorKind::ContributionLevelInconsistent);

    // An originator present with no contribution level is also the
    // contribution-level error.
    let mut c2 = contract(
        storage_category(),
        None,
        None,
        None,
        false,
        None,
        vec![individual("Marcus", "E1", 1980, 10)],
        vec![],
    );
    c2.add_parties(vec![
        party("Marcus", "E1", PartyType::DataOriginator),
        party("Bank", "E2", PartyType::HBank),
    ])
    .unwrap();
    let err2 = c2.validate_and_execute_contract().unwrap_err();
    assert_eq!(err2.kind, ValidationErrorKind::ContributionLevelInconsistent);
}

#[test]
fn review_requires_explicit_approval() {
    let mut c = contract(
        storage_category(),
        None,
        None,
        Some(IndividualContributionLevel::DataOnly),
        true,
        None,
        vec![individual("Marcus", "E1", 1980, 10)],
        vec![],
    );
    c.add_parties(vec![
        party("Marcus", "E1", PartyType::DataOriginator),
        party("Bank", "E2", PartyType::HBank),
    ])
    .unwrap();
    let err = c.validate_and_execute_contract().unwrap_err();
    assert_eq!(err.kind, ValidationErrorKind::ReviewNotApproved);

    let mut denied = contract(
        storage_category(),
        None,
        None,
        Some(IndividualContributionLevel::DataOnly),
        true,
        Some(false),
        vec![individual("Marcus", "E1", 1980, 10)],
        vec![],
    );
    denied
        .add_parties(vec![
            party("Marcus", "E1", PartyType::DataOriginator),
            party("Bank", "E2", PartyType::HBank),
        ])
        .unwrap();
    assert_eq!(
        denied.validate_and_execute_contract().unwrap_err().kind,
        ValidationErrorKind::ReviewNotApproved
    );

    let mut approved = contract(
        storage_category(),
        None,
        None,
        Some(IndividualContributionLevel::DataOnly),
        true,
        Some(true),
        vec![individual("Marcus", "E1", 1980, 10)],
        vec![],
    );
    approved
        .add_parties(vec![
            party("Marcus", "E1", PartyType::DataOriginator),
            party("Bank", "E2", PartyType::HBank),
        ])
        .unwrap();
    assert!(approved.validate_and_execute_contract().is_ok());
}

#[test]
fn eligibility_boundary_at_seventeen_years() {
    let today = h_bank::dates::today();

    // Born exactly seventeen years before today: passes.
    let mut c = contract(
        storage_category(),
        None,
        None,
        Some(IndividualContributionLevel::DataOnly),
        false,
        None,
        vec![individual("Marcus", "E1", today.year - 17, today.ordinal)],
        vec![],
    );
    c.add_parties(vec![
        party("Marcus", "E1", PartyType::DataOriginator),
        party("Bank", "E2", PartyType::HBank),
    ])
    .unwrap();
    assert!(c.validate_individual_age_at(today).is_ok());
    assert!(c.validate_and_execute_contract_at(today).is_ok());

    // Born exactly seventeen years minus one day before today: fails.
    let (by, bo) = if today.ordinal >= 365 {
        (today.year - 16, 1)
    } else {
        (today.year - 17, today.ordinal + 1)
    };
    let mut under = contract(
        storage_category(),
        None,
        None,
        Some(IndividualContributionLevel::DataOnly),
        false,
        None,
        vec![individual("Marcus", "E1", by, bo)],
        vec![],
    );
    under
        .add_parties(vec![
            party("Marcus", "E1", PartyType::DataOriginator),
            party("Bank", "E2", PartyType::HBank),
        ])
        .unwrap();
    let err = under.validate_individual_age_at(today).unwrap_err();
    assert_eq!(err.kind, ValidationErrorKind::AgeBelowThreshold);
}

#[test]
fn eligibility_through_current_date_wrapper() {
    // Born well before the threshold: the check against the real current
    // date passes whatever today is.
    let mut c = contract(
        storage_category(),
        None,
        None,
        Some(IndividualContributionLevel::DataOnly),
        false,
        None,
        vec![individual("Marcus", "E1", 1980, 10)],
        vec![],
    );
    c.add_parties(vec![
        party("Marcus", "E1", PartyType::DataOriginator),
        party("Bank", "E2", PartyType::HBank),
    ])
    .unwrap();
    assert!(c.validate_individual_age_wrt_agency_privacy().is_ok());
}

#[test]
fn missing_identity_record_fails_eligibility() {
    let mut c = contract(
        storage_category(),
        None,
        None,
        Some(IndividualContributionLevel::DataOnly),
        false,
        None,
        vec![],
        vec![Corporation::new("Bank Corp".to_string(), EntityId("E2".to_string()))],
    );
    c.add_parties(vec![
        party("Marcus", "E1", PartyType::DataOriginator),
        party("Bank", "E2", PartyType::HBank),
    ])
    .unwrap();
    let err = c.validate_and_execute_contract().unwrap_err();
    assert_eq!(err.kind, ValidationErrorKind::IdentityRecordMissing);
}

#[test]
fn absent_beneficiary_fails_validation() {
    // Residuals name a funder who was never added to the roster.
    let residuals = Residuals {
        beneficiaries: vec![party("Foundation", "E9", PartyType::Funder)],
        disbursement_schedule: "quarterly".to_string(),
    };
    let mut c = contract(
        storage_category(),
        None,
        Some(residuals),
        Some(IndividualContributionLevel::DataOnly),
        false,
        None,
        vec![individual("Marcus", "E1", 1980, 10)],
        vec![],
    );
    c.add_parties(vec![
        party("Marcus", "E1", PartyType::DataOriginator),
        party("Bank", "E2", PartyType::HBank),
    ])
    .unwrap();
    let err = c.validate_and_execute_contract().unwrap_err();
    assert_eq!(err.kind, ValidationErrorKind::BeneficiaryNotAParty);
    assert_eq!(
        c.validate_residual_payees().unwrap_err().kind,
        ValidationErrorKind::BeneficiaryNotAParty
    );
}

#[test]
fn roster_member_beneficiary_passes_validation() {
    // A beneficiary matching a roster member by identifier is accepted even
    // under a different role tag.
    let residuals = Residuals {
        beneficiaries: vec![party("Marcus", "E1", PartyType::Funder)],
        disbursement_schedule: "quarterly".to_string(),
    };
    let mut c = contract(
        storage_category(),
        None,
        Some(residuals),
        Some(IndividualContributionLevel::DataOnly),
        false,
        None,
        vec![individual("Marcus", "E1", 1980, 10)],
        vec![],
    );
    c.add_parties(vec![
        party("Marcus", "E1", PartyType::DataOriginator),
        party("Bank", "E2", PartyType::HBank),
    ])
    .unwrap();
    assert!(c.validate_and_execute_contract().is_ok());
}

#[test]
fn parties_compare_by_identifier() {
    let a = party("One Name", "X1", PartyType::Donor);
    let b = party("Other Name", "X1", PartyType::Funder);
    let c = party("One Name", "X2", PartyType::Donor);
    assert!(a == b);
    assert!(a != c);
    assert_eq!(a.as_party_info().entity_id, b.as_party_info().entity_id);
    assert_eq!(a.role(), PartyType::Donor);
}

#[test]
fn getters_reflect_contract_state() {
    let c = HealthDataContract::new(
        Vec::new(),
        storage_category(),
        ContractLegalFramework::UCC,
        empty_terms(),
        None,
        None,
        None,
        false,
        None,
        "CT7".to_string(),
        Some("CH1".to_string()),
        DataPrivacyLevel::HIPPA_minus,
        vec![],
        vec![],
    );
    assert_eq!(c.get_contract_id(), "CT7");
    assert_eq!(c.get_cohort_id(), Some("CH1"));
    assert_eq!(*c.get_privacy_level(), DataPrivacyLevel::HIPPA_minus);
    assert!(c.get_parties().is_empty());
}
