//! The contract-category taxonomy: two-party and three-plus-party legal
//! structures. Each variant fixes an arity bound and a required-role
//! predicate; the role-matching engine checks candidate rosters against them.

use vstd::prelude::*;
use crate::parties::{
    Party, PartyType, PartyV, roster_has_role, roster_has_agent_like,
};

verus! {

/// Two-party storage or exchange structures.
#[derive(Debug)]
pub enum StorageExchangeLegalStructure {
    AgentStorageAgreement { agent: Party, h_bank: Party },
    AgentExchangeAgreement { agent: Party, h_bank: Party },
    GeneratorStorageAgreement { generator: Party, h_bank: Party },
    GeneratorExchangeAgreement { generator: Party, h_bank: Party },
}

/// Two-party donation structures.
#[derive(Debug)]
pub enum DonationLegalStructure {
    PhilanthropicAgreement { donor: Party, h_bank: Party },
}

/// Two-party advertisement structures.
#[derive(Debug)]
pub enum AdLegalStructure {
    AdvertiserAgreement { advertiser: Party, h_bank: Party },
}

/// Three-or-more-party transaction structures.
#[derive(Debug)]
pub enum TransactionLegalStructure {
    ConsultAgreement { agent: Party, consultant: Party, h_bank: Party },
    DirectSale { agent_a: Party, agent_b: Party, generators: Vec<Party>, h_bank: Party },
    PurchaseAgreement { agent_a: Party, agent_b: Party, generators: Vec<Party>, h_bank: Party },
    LicensingAgreement { agent_a: Party, agent_b: Party, generators: Vec<Party>, h_bank: Party },
    AccessAgreement { agent_a: Party, agent_b: Party, generators: Vec<Party>, h_bank: Party },
    SubscriptionAgreement { agent_a: Party, agent_b: Party, generators: Vec<Party>, h_bank: Party },
    ConsortiumAgreement { agents: Vec<Party>, generators: Vec<Party>, h_bank: Party },
    ParticipationAgreement { agents: Vec<Party>, funders: Vec<Party>, generators: Vec<Party>, h_bank: Party },
    DataExchangeAgreement { agents_a: Vec<Party>, agents_b: Vec<Party>, generators: Vec<Party>, h_bank: Party },
}

/// The two-party side of the taxonomy.
#[allow(non_camel_case_types)]
#[derive(Debug)]
pub enum TwoPartyLegalStructure {
    Storage_or_Exchange(StorageExchangeLegalStructure),
    Donation(DonationLegalStructure),
    Advertisement(AdLegalStructure),
}

/// A contract's legal-structure classification.
#[derive(Debug)]
pub enum ContractCategory {
    TwoParty(TwoPartyLegalStructure),
    ThreePlusParty(TransactionLegalStructure),
}

/// The body of law the contract is interpreted under.
#[derive(Clone, Copy, Debug, PartialEq, Eq, Structural)]
pub enum ContractLegalFramework {
    UCC,
    CommonLaw,
}

/// The smallest roster a three-plus-party structure admits, fixed for each
/// variant individually.
pub open spec fn transaction_min_parties(t: &TransactionLegalStructure) -> nat {
    match t {
        TransactionLegalStructure::ConsultAgreement { .. } => 3,
        TransactionLegalStructure::DirectSale { .. } => 3,
        TransactionLegalStructure::PurchaseAgreement { .. } => 3,
        TransactionLegalStructure::LicensingAgreement { .. } => 3,
        TransactionLegalStructure::AccessAgreement { .. } => 3,
        TransactionLegalStructure::SubscriptionAgreement { .. } => 3,
        TransactionLegalStructure::ConsortiumAgreement { .. } => 3,
        TransactionLegalStructure::ParticipationAgreement { .. } => 3,
        TransactionLegalStructure::DataExchangeAgreement { .. } => 3,
    }
}

/// The arity bound of a category: exactly 2 for every two-party structure, a
/// per-variant minimum for three-plus-party structures.
pub open spec fn category_arity_ok(c: &ContractCategory, n: nat) -> bool {
    match c {
        ContractCategory::TwoParty(_) => n == 2,
        ContractCategory::ThreePlusParty(t) => n >= transaction_min_parties(t),
    }
}

/// The required-role predicate of a two-party structure.
pub open spec fn two_party_roles_ok(t: &TwoPartyLegalStructure, roster: Seq<PartyV>) -> bool {
    match t {
        TwoPartyLegalStructure::Storage_or_Exchange(_) => {
            &&& (roster_has_role(roster, PartyType::DataOriginator)
                || roster_has_role(roster, PartyType::DataCustodian)
                || roster_has_role(roster, PartyType::DataGenerator))
            &&& roster_has_role(roster, PartyType::HBank)
        },
        TwoPartyLegalStructure::Donation(_) => {
            &&& roster_has_role(roster, PartyType::Donor)
            &&& roster_has_role(roster, PartyType::HBank)
        },
        TwoPartyLegalStructure::Advertisement(_) => {
            &&& roster_has_role(roster, PartyType::Advertiser)
            &&& roster_has_role(roster, PartyType::HBank)
        },
    }
}

/// The required-role predicate of a three-plus-party structure.
pub open spec fn transaction_roles_ok(t: &TransactionLegalStructure, roster: Seq<PartyV>) -> bool {
    match t {
        TransactionLegalStructure::ConsultAgreement { .. } => {
            &&& roster_has_agent_like(roster)
            &&& roster_has_role(roster, PartyType::DataConsultant)
            &&& roster_has_role(roster, PartyType::DataGenerator)
            &&& roster_has_role(roster, PartyType::HBank)
        },
        TransactionLegalStructure::DirectSale { .. }
        | TransactionLegalStructure::PurchaseAgreement { .. }
        | TransactionLegalStructure::LicensingAgreement { .. }
        | TransactionLegalStructure::AccessAgreement { .. }
        | TransactionLegalStructure::SubscriptionAgreement { .. }
        | TransactionLegalStructure::DataExchangeAgreement { .. } => {
            &&& roster_has_agent_like(roster)
            &&& roster_has_role(roster, PartyType::DataRecipient)
            &&& roster_has_role(roster, PartyType::DataGenerator)
            &&& roster_has_role(roster, PartyType::HBank)
        },
        TransactionLegalStructure::ConsortiumAgreement { .. } => {
            &&& roster_has_agent_like(roster)
            &&& roster_has_role(roster, PartyType::DataGenerator)
            &&& roster_has_role(roster, PartyType::HBank)
        },
        TransactionLegalStructure::ParticipationAgreement { .. } => {
            &&& roster_has_agent_like(roster)
            &&& roster_has_role(roster, PartyType::Funder)
            &&& roster_has_role(roster, PartyType::DataGenerator)
            &&& roster_has_role(roster, PartyType::HBank)
        },
    }
}

/// The required-role predicate of a category.
pub open spec fn category_roles_ok(c: &ContractCategory, roster: Seq<PartyV>) -> bool {
    match c {
        ContractCategory::TwoParty(t) => two_party_roles_ok(t, roster),
        ContractCategory::ThreePlusParty(t) => transaction_roles_ok(t, roster),
    }
}

/// A roster is admissible for a category when it meets both the arity bound
/// and the required-role predicate.
pub open spec fn roster_admissible(c: &ContractCategory, roster: Seq<PartyV>) -> bool {
    category_arity_ok(c, roster.len()) && category_roles_ok(c, roster)
}

} // verus!
