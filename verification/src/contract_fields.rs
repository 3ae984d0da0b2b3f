//! Financial and participation fields of a contract: generator rate,
//! individual contribution level, privacy level, free-form terms, and
//! residual payment obligations.

use vstd::prelude::*;
use crate::parties::Party;

verus! {

/// A generator's compensation rate, in basis points, tagged by whether it
/// applies to first use or to repeated use of the data.
#[derive(Clone, Copy, Debug, PartialEq, Eq, Structural)]
pub enum GeneratorRateSpecification {
    KnowledgeRate(u64),
    UsageRate(u64),
}

/// How far an individual data originator takes part in the contract.
#[derive(Clone, Copy, Debug, PartialEq, Eq, Structural)]
pub enum IndividualContributionLevel {
    DataOnly,
    DataAndParticipation,
}

/// The privacy regime the contract's data falls under.
#[allow(non_camel_case_types)]
#[derive(Clone, Copy, Debug, PartialEq, Eq, Structural)]
pub enum DataPrivacyLevel {
    HIPPA_minus,
    HIPPA_deidentified,
}

/// Accumulating free-form contract text and metadata.
#[derive(Debug)]
pub struct Terms {
    pub data_borrowers_full_list: Option<Vec<String>>,
    pub data_request_explanation: Option<String>,
    pub data_request_purpose_executive_summary: Option<String>,
}

impl Default for Terms {
    fn default() -> (t: Terms)
        ensures
            t.data_borrowers_full_list is None,
            t.data_request_explanation is None,
            t.data_request_purpose_executive_summary is None,
    {
        Terms {
            data_borrowers_full_list: None,
            data_request_explanation: None,
            data_request_purpose_executive_summary: None,
        }
    }
}

/// Post-contract compensation obligations tied to named beneficiary parties.
/// Every beneficiary must already be a roster member when the contract is
/// validated.
#[derive(Debug)]
pub struct Residuals {
    pub beneficiaries: Vec<Party>,
    pub disbursement_schedule: String,
}

} // verus!
