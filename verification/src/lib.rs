//! Multi-party health-data sharing agreements.

pub mod parties;
pub mod taxonomy;
pub mod contract_fields;
pub mod dates;
pub mod text;
pub mod persons;
pub mod contract;
pub mod cohorts;
pub mod kvstore;
pub mod api;
pub mod data_generation;

pub use parties::{EntityId, PartyInfo, Party, PartyType};
pub use taxonomy::{
    StorageExchangeLegalStructure, DonationLegalStructure, AdLegalStructure,
    TransactionLegalStructure, TwoPartyLegalStructure, ContractCategory,
    ContractLegalFramework,
};
pub use contract_fields::{
    GeneratorRateSpecification, IndividualContributionLevel, DataPrivacyLevel, Terms, Residuals,
};
pub use dates::CivilDate;
pub use persons::{Individual, Corporation};
pub use contract::{HealthDataContract, ValidationError, ValidationErrorKind};
pub use cohorts::{CohortManager, Cohort, CohortSummary, CohortError};
