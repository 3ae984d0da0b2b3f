use h_bank::{
    CohortError, CohortManager, ContractCategory, ContractLegalFramework, DataPrivacyLevel,
    EntityId, HealthDataContract, Party, PartyType, StorageExchangeLegalStructure, Terms,
    TwoPartyLegalStructure,
};

fn party(name: &str, id: &str, role: PartyType) -> Party {
    Party::new(name.to_string(), EntityId(id.to_string()), role)
}

fn storage_category() -> ContractCategory {
    ContractCategory::TwoParty(TwoPartyLegalStructure::Storage_or_Exchange(
        StorageExchangeLegalStructure::AgentStorageAgreement {
            agent: party("Agent", "E1", PartyType::DataOriginator),
            h_bank: party("Bank", "E2", PartyType::HBank),
        },
    ))
}

fn contract_with_originator(
    contract_id: &str,
    originator_id: &str,
    privacy: DataPrivacyLevel,
) -> HealthDataContract {
    let mut c = HealthDataContract::new(
        Vec::new(),
        storage_category(),
        ContractLegalFramework::CommonLaw,
        Terms {
            data_borrowers_full_list: None,
            data_request_explanation: None,
            data_request_purpose_executive_summary: None,
        },
        None,
        None,
        None,
        false,
        None,
        contract_id.to_string(),
        Some("CH1".to_string()),
        privacy,
        vec![],
        vec![],
    );
    c.add_parties(vec![
        party("Originator", originator_id, PartyType::DataOriginator),
        party("Bank", "B1", PartyType::HBank),
    ])
    .unwrap();
    c
}

#[test]
fn cohort_counts_distinct_originators_across_contracts() {
    let mut mgr = CohortManager::new();
    mgr.create_cohort("CH1".to_string(), DataPrivacyLevel::HIPPA_deidentified)
        .unwrap();

    mgr.add_contract_to_cohort(
        &"CH1".to_string(),
        contract_with_originator("CT1", "P1", DataPrivacyLevel::HIPPA_deidentified),
    )
    .unwrap();
    mgr.add_contract_to_cohort(
        &"CH1".to_string(),
        contract_with_originator("CT2", "P2", DataPrivacyLevel::HIPPA_deidentified),
    )
    .unwrap();

    let summary = mgr.get_cohort_summary(&"CH1".to_string()).unwrap();
    assert_eq!(summary.cohort_id, "CH1");
    assert_eq!(summary.privacy_level, DataPrivacyLevel::HIPPA_deidentified);
    assert_eq!(summary.total_participants, 2);
    assert_eq!(summary.contract_count, 2);

    mgr.remove_contract_from_cohort(&"CH1".to_string(), &"CT2".to_string())
        .unwrap();
    let after = mgr.get_cohort_summary(&"CH1".to_string()).unwrap();
    assert_eq!(after.total_participants, 1);
    assert_eq!(after.contract_count, 1);
}

#[test]
fn shared_originator_is_counted_once() {
    let mut mgr = CohortManager::new();
    mgr.create_cohort("CH2".to_string(), DataPrivacyLevel::HIPPA_deidentified)
        .unwrap();
    mgr.add_contract_to_cohort(
        &"CH2".to_string(),
        contract_with_originator("CT1", "P1", DataPrivacyLevel::HIPPA_deidentified),
    )
    .unwrap();
    mgr.add_contract_to_cohort(
        &"CH2".to_string(),
        contract_with_originator("CT2", "P1", DataPrivacyLevel::HIPPA_deidentified),
    )
    .unwrap();
    let summary = mgr.get_cohort_summary(&"CH2".to_string()).unwrap();
    assert_eq!(summary.total_participants, 1);
    assert_eq!(summary.contract_count, 2);
}

#[test]
fn duplicate_cohort_id_is_rejected() {
    let mut mgr = CohortManager::new();
    mgr.create_cohort("CH1".to_string(), DataPrivacyLevel::HIPPA_minus)
        .unwrap();
    let err = mgr
        .create_cohort("CH1".to_string(), DataPrivacyLevel::HIPPA_minus)
        .unwrap_err();
    assert_eq!(err, CohortError::DuplicateCohortId);
}

#[test]
fn absent_cohort_is_reported() {
    let mut mgr = CohortManager::new();
    assert_eq!(
        mgr.get_cohort_summary(&"CHX".to_string()).unwrap_err(),
        CohortError::CohortNotFound
    );
    assert_eq!(
        mgr.add_contract_to_cohort(
            &"CHX".to_string(),
            contract_with_originator("CT1", "P1", DataPrivacyLevel::HIPPA_minus),
        )
        .unwrap_err(),
        CohortError::CohortNotFound
    );
    assert_eq!(
        mgr.remove_contract_from_cohort(&"CHX".to_string(), &"CT1".to_string())
            .unwrap_err(),
        CohortError::CohortNotFound
    );
}

#[test]
fn privacy_level_mismatch_is_rejected() {
    let mut mgr = CohortManager::new();
    mgr.create_cohort("CH1".to_string(), DataPrivacyLevel::HIPPA_deidentified)
        .unwrap();
    let err = mgr
        .add_contract_to_cohort(
            &"CH1".to_string(),
            contract_with_originator("CT1", "P1", DataPrivacyLevel::HIPPA_minus),
        )
        .unwrap_err();
    assert_eq!(err, CohortError::PrivacyLevelMismatch);
    let summary = mgr.get_cohort_summary(&"CH1".to_string()).unwrap();
    assert_eq!(summary.contract_count, 0);
    assert_eq!(summary.total_participants, 0);
}

#[test]
fn absent_contract_is_reported_on_removal() {
    let mut mgr = CohortManager::new();
    mgr.create_cohort("CH1".to_string(), DataPrivacyLevel::HIPPA_minus)
        .unwrap();
    let err = mgr
        .remove_contract_from_cohort(&"CH1".to_string(), &"CT9".to_string())
        .unwrap_err();
    assert_eq!(err, CohortError::ContractNotFound);
    assert_eq!(err.message(), "Contract not found in cohort");
}

#[test]
fn cohorts_are_listed_in_creation_order() {
    let mut mgr = CohortManager::new();
    mgr.create_cohort("CH1".to_string(), DataPrivacyLevel::HIPPA_minus)
        .unwrap();
    mgr.create_cohort("CH2".to_string(), DataPrivacyLevel::HIPPA_deidentified)
        .unwrap();
    assert_eq!(mgr.list_cohorts(), vec!["CH1".to_string(), "CH2".to_string()]);
}
