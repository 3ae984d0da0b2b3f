//! The health-data contract aggregate: role-matching gates every roster
//! extension, and five cross-field consistency validators run in a fixed
//! order over committed state before the contract may be executed.

use vstd::prelude::*;
use crate::parties::{
    Party, PartyType, PartyV, EntityId, views_of, roster_has_role, roster_has_agent_like,
    roster_has_entity, is_agent_like, role_is_agent_like,
};
use crate::taxonomy::{
    ContractCategory, TwoPartyLegalStructure, TransactionLegalStructure, ContractLegalFramework,
    roster_admissible, two_party_roles_ok, transaction_roles_ok, transaction_min_parties,
};
use crate::contract_fields::{
    GeneratorRateSpecification, IndividualContributionLevel, DataPrivacyLevel, Terms, Residuals,
};
use crate::dates::{CivilDate, eligible_at, compute_age, today};
use crate::persons::{Individual, Corporation};

verus! {

/// The typed cause of a validation failure.
#[derive(Clone, Copy, Debug, PartialEq, Eq, Structural)]
pub enum ValidationErrorKind {
    /// The candidate roster fails the arity bound or the required-role
    /// predicate of the declared category.
    RoleMismatch,
    /// The generator rate is specified without a data generator on the
    /// roster, or a data generator is present without a rate.
    GeneratorRateInconsistent,
    /// A data originator is present with no contribution level, or
    /// data-and-participation is specified with no data originator.
    ContributionLevelInconsistent,
    /// Institutional review is required but approval was not granted.
    ReviewNotApproved,
    /// A roster member subject to the age check has no identity record.
    IdentityRecordMissing,
    /// A roster member subject to the age check is under seventeen.
    AgeBelowThreshold,
    /// A residual beneficiary is not a roster member.
    BeneficiaryNotAParty,
}

/// A validation failure: its typed kind and a human-readable cause.
#[derive(Debug)]
pub struct ValidationError {
    pub kind: ValidationErrorKind,
    pub message: String,
}

impl ValidationError {
    pub fn kind(&self) -> (k: ValidationErrorKind)
        ensures
            k == self.kind,
    {
        self.kind
    }

    pub fn message(&self) -> (m: &str)
        ensures
            m@ == self.message@,
    {
        self.message.as_str()
    }
}

fn verr(kind: ValidationErrorKind, message: &str) -> (e: ValidationError)
    ensures
        e.kind == kind,
{
    ValidationError { kind, message: message.to_string() }
}

/// The verdict a `Result` carries: no kind on success, the error's kind on
/// failure.
pub open spec fn verdict_of(r: Result<(), ValidationError>) -> Option<ValidationErrorKind> {
    match r {
        Ok(_) => None,
        Err(e) => Some(e.kind),
    }
}

/// Every beneficiary of the residuals matches a roster member by
/// identifier.
pub open spec fn beneficiaries_are_members(res: Residuals, roster: Seq<PartyV>) -> bool {
    forall|i: int|
        0 <= i < res.beneficiaries@.len() ==> roster_has_entity(
            roster,
            (#[trigger] res.beneficiaries@[i])@.entity_id,
        )
}

/// Spec-level image of an identity record: identifier and birth date.
pub ghost struct PersonRecord {
    pub id: Seq<char>,
    pub birth: CivilDate,
}

/// The identity records read by the eligibility check.
pub open spec fn person_records(inds: Seq<Individual>) -> Seq<PersonRecord> {
    inds.map_values(|p: Individual| PersonRecord { id: p.person_id@, birth: p.date_of_birth })
}

/// The birth date of the first record carrying the identifier, if any.
pub open spec fn find_birth(recs: Seq<PersonRecord>, id: Seq<char>) -> Option<CivilDate>
    decreases recs.len(),
{
    if recs.len() == 0 {
        None
    } else if recs[0].id == id {
        Some(recs[0].birth)
    } else {
        find_birth(recs.skip(1), id)
    }
}

/// The roles whose holders must resolve to an eligible individual:
/// originator, custodian, and recipient.
pub open spec fn age_check_role(role: PartyType) -> bool {
    ||| role == PartyType::DataOriginator
    ||| role == PartyType::DataCustodian
    ||| role == PartyType::DataRecipient
}

/// The eligibility check walked over the roster in order: the first party
/// subject to the check that has no record yields the missing-record kind;
/// the first whose record is under seventeen yields the under-age kind.
pub open spec fn age_check_roster(
    roster: Seq<PartyV>,
    recs: Seq<PersonRecord>,
    current: CivilDate,
) -> Option<ValidationErrorKind>
    decreases roster.len(),
{
    if roster.len() == 0 {
        None
    } else if age_check_role(roster[0].role) {
        match find_birth(recs, roster[0].entity_id) {
            None => Some(ValidationErrorKind::IdentityRecordMissing),
            Some(b) => if !eligible_at(b, current) {
                Some(ValidationErrorKind::AgeBelowThreshold)
            } else {
                age_check_roster(roster.skip(1), recs, current)
            },
        }
    } else {
        age_check_roster(roster.skip(1), recs, current)
    }
}

/// A multi-party data-sharing agreement: a role-tagged roster, an immutable
/// category and legal framework, financial and participation fields, and the
/// identity records the validators read.
#[derive(Debug)]
pub struct HealthDataContract {
    pub parties: Vec<Party>,
    pub agreement_type: ContractCategory,
    pub legal_framework: ContractLegalFramework,
    pub terms: Terms,
    pub generator_rate: Option<GeneratorRateSpecification>,
    pub residual_payments: Option<Residuals>,
    pub individual_contribution_level: Option<IndividualContributionLevel>,
    pub irb_required: bool,
    pub irb_approved: Option<bool>,
    pub contract_id: String,
    pub cohort_id: Option<String>,
    pub privacy_level: DataPrivacyLevel,
    pub individuals: Vec<Individual>,
    pub corporations: Vec<Corporation>,
}

impl HealthDataContract {
    /// The spec-level image of the committed roster.
    pub open spec fn roster(&self) -> Seq<PartyV> {
        views_of(self.parties@)
    }

    /// Check 1: the rate is specified exactly when a data generator is on
    /// the roster.
    pub open spec fn spec_generator_rate_check(&self) -> Option<ValidationErrorKind> {
        if roster_has_role(self.roster(), PartyType::DataGenerator) <==> self.generator_rate
            is Some {
            None
        } else {
            Some(ValidationErrorKind::GeneratorRateInconsistent)
        }
    }

    /// Check 2: a data originator needs a contribution level, and
    /// data-and-participation needs a data originator.
    pub open spec fn spec_contribution_check(&self) -> Option<ValidationErrorKind> {
        let originator_present = roster_has_role(self.roster(), PartyType::DataOriginator);
        match self.individual_contribution_level {
            None => if originator_present {
                Some(ValidationErrorKind::ContributionLevelInconsistent)
            } else {
                None
            },
            Some(IndividualContributionLevel::DataOnly) => None,
            Some(IndividualContributionLevel::DataAndParticipation) => if originator_present {
                None
            } else {
                Some(ValidationErrorKind::ContributionLevelInconsistent)
            },
        }
    }

    /// Check 3: when institutional review is required, approval must be
    /// explicitly granted.
    pub open spec fn spec_irb_check(&self) -> Option<ValidationErrorKind> {
        if self.irb_required && self.irb_approved != Some(true) {
            Some(ValidationErrorKind::ReviewNotApproved)
        } else {
            None
        }
    }

    /// Check 4: every originator, custodian, and recipient resolves to an
    /// individual at least seventeen years old on the given date.
    pub open spec fn spec_age_check(&self, current: CivilDate) -> Option<ValidationErrorKind> {
        age_check_roster(self.roster(), person_records(self.individuals@), current)
    }

    /// Check 5: every residual beneficiary matches a roster member by
    /// identifier.
    pub open spec fn spec_residuals_check(&self) -> Option<ValidationErrorKind> {
        match self.residual_payments {
            None => None,
            Some(res) => if beneficiaries_are_members(res, self.roster()) {
                None
            } else {
                Some(ValidationErrorKind::BeneficiaryNotAParty)
            },
        }
    }

    /// The five checks in their fixed order, stopping at the first failure.
    pub open spec fn spec_validate(&self, current: CivilDate) -> Option<ValidationErrorKind> {
        if self.spec_generator_rate_check() is Some {
            self.spec_generator_rate_check()
        } else if self.spec_contribution_check() is Some {
            self.spec_contribution_check()
        } else if self.spec_irb_check() is Some {
            self.spec_irb_check()
        } else if self.spec_age_check(current) is Some {
            self.spec_age_check(current)
        } else {
            self.spec_residuals_check()
        }
    }

    pub fn get_parties(&self) -> (r: &Vec<Party>)
        ensures
            r@ == self.parties@,
    {
        &self.parties
    }

    pub fn get_privacy_level(&self) -> (r: &DataPrivacyLevel)
        ensures
            *r == self.privacy_level,
    {
        &self.privacy_level
    }

    pub fn get_contract_id(&self) -> (r: &str)
        ensures
            r@ == self.contract_id@,
    {
        self.contract_id.as_str()
    }

    pub fn get_cohort_id(&self) -> (r: Option<&str>)
        ensures
            r is Some <==> self.cohort_id is Some,
            r matches Some(t) ==> self.cohort_id matches Some(s) && t@ == s@,
    {
        match &self.cohort_id {
            Some(s) => Some(s.as_str()),
            None => None,
        }
    }

    pub fn new(
        parties: Vec<Party>,
        agreement_type: ContractCategory,
        legal_framework: ContractLegalFramework,
        terms: Terms,
        generator_rate: Option<GeneratorRateSpecification>,
        residual_payments: Option<Residuals>,
        individual_contribution_level: Option<IndividualContributionLevel>,
        irb_required: bool,
        irb_approved: Option<bool>,
        contract_id: String,
        cohort_id: Option<String>,
        privacy_level: DataPrivacyLevel,
        individuals: Vec<Individual>,
        corporations: Vec<Corporation>,
    ) -> (c: HealthDataContract)
        ensures
            c.parties == parties,
            c.agreement_type == agreement_type,
            c.legal_framework == legal_framework,
            c.terms == terms,
            c.generator_rate == generator_rate,
            c.residual_payments == residual_payments,
            c.individual_contribution_level == individual_contribution_level,
            c.irb_required == irb_required,
            c.irb_approved == irb_approved,
            c.contract_id == contract_id,
            c.cohort_id == cohort_id,
            c.privacy_level == privacy_level,
            c.individuals == individuals,
            c.corporations == corporations,
    {
        HealthDataContract {
            parties,
            agreement_type,
            legal_framework,
            terms,
            generator_rate,
            residual_payments,
            individual_contribution_level,
            irb_required,
            irb_approved,
            contract_id,
            cohort_id,
            privacy_level,
            individuals,
            corporations,
        }
    }

    /// Admit the candidate batch when the roster extended by it satisfies
    /// the declared category's arity bound and required-role predicate; the
    /// whole batch is appended, or nothing is.
    pub fn add_parties(&mut self, new_parties: Vec<Party>) -> (r: Result<(), ValidationError>)
        ensures
            r is Ok <==> roster_admissible(
                &old(self).agreement_type,
                views_of(old(self).parties@ + new_parties@),
            ),
            r matches Err(e) ==> e.kind == ValidationErrorKind::RoleMismatch,
            r is Ok ==> final(self).parties@ == old(self).parties@ + new_parties@,
            r is Err ==> final(self).parties@ == old(self).parties@,
            final(self).agreement_type == old(self).agreement_type,
            final(self).legal_framework == old(self).legal_framework,
            final(self).terms == old(self).terms,
            final(self).generator_rate == old(self).generator_rate,
            final(self).residual_payments == old(self).residual_payments,
            final(self).individual_contribution_level == old(self).individual_contribution_level,
            final(self).irb_required == old(self).irb_required,
            final(self).irb_approved == old(self).irb_approved,
            final(self).contract_id == old(self).contract_id,
            final(self).cohort_id == old(self).cohort_id,
            final(self).privacy_level == old(self).privacy_level,
            final(self).individuals == old(self).individuals,
            final(self).corporations == old(self).corporations,
    {
        let checked: Result<(), ValidationError> = match &self.agreement_type {
            ContractCategory::TwoParty(t) => check_two_party(t, &self.parties, &new_parties),
            ContractCategory::ThreePlusParty(t) => check_three_plus_party(
                t,
                &self.parties,
                &new_parties,
            ),
        };
        match checked {
            Ok(()) => {
                let mut batch = new_parties;
                self.parties.append(&mut batch);
                Ok(())
            },
            Err(e) => Err(e),
        }
    }

    /// Check 1, decided over the committed roster.
    pub fn validate_generator_rate_spec(&self) -> (r: Result<(), ValidationError>)
        ensures
            verdict_of(r) == self.spec_generator_rate_check(),
    {
        let generator_present = roster_contains_role(&self.parties, PartyType::DataGenerator);
        match (generator_present, &self.generator_rate) {
            (false, None) => Ok(()),
            (false, Some(_)) => Err(
                verr(
                    ValidationErrorKind::GeneratorRateInconsistent,
                    "No data-generator party is present, but generator_rate is specified.",
                ),
            ),
            (true, None) => Err(
                verr(
                    ValidationErrorKind::GeneratorRateInconsistent,
                    "At least one data-generator party is present, but generator_rate is not specified.",
                ),
            ),
            (true, Some(_)) => Ok(()),
        }
    }

    /// Check 2, decided over the committed roster.
    pub fn validate_individual_contribution_level(&self) -> (r: Result<(), ValidationError>)
        ensures
            verdict_of(r) == self.spec_contribution_check(),
    {
        let originator_present = roster_contains_role(&self.parties, PartyType::DataOriginator);
        match (originator_present, &self.individual_contribution_level) {
            (false, None) => Ok(()),
            (false, Some(IndividualContributionLevel::DataOnly)) => Ok(()),
            (false, Some(IndividualContributionLevel::DataAndParticipation)) => Err(
                verr(
                    ValidationErrorKind::ContributionLevelInconsistent,
                    "No data-originator party is present, but individual_contribution_level is set to DataAndParticipation.",
                ),
            ),
            (true, None) => Err(
                verr(
                    ValidationErrorKind::ContributionLevelInconsistent,
                    "At least one data-originator party is present, but individual_contribution_level is not specified.",
                ),
            ),
            (true, Some(IndividualContributionLevel::DataOnly)) => Ok(()),
            (true, Some(IndividualContributionLevel::DataAndParticipation)) => Ok(()),
        }
    }

    /// Check 3, decided over the review fields.
    pub fn validate_irb_requirement(&self) -> (r: Result<(), ValidationError>)
        ensures
            verdict_of(r) == self.spec_irb_check(),
    {
        if self.irb_required {
            match self.irb_approved {
                Some(true) => Ok(()),
                Some(false) => Err(
                    verr(
                        ValidationErrorKind::ReviewNotApproved,
                        "Institutional review approval is required but it was not granted.",
                    ),
                ),
                None => Err(
                    verr(
                        ValidationErrorKind::ReviewNotApproved,
                        "Institutional review approval is required but not specified.",
                    ),
                ),
            }
        } else {
            Ok(())
        }
    }

    /// Check 4, decided against the given current date.
    pub fn validate_individual_age_at(&self, current: CivilDate) -> (r: Result<
        (),
        ValidationError,
    >)
        ensures
            verdict_of(r) == self.spec_age_check(current),
    {
        let ghost roster = self.roster();
        let ghost recs = person_records(self.individuals@);
        let n = self.parties.len();
        let mut i: usize = 0;
        proof {
            assert(roster.skip(0) =~= roster);
        }
        while i < n
            invariant
                i <= n,
                n == self.parties@.len(),
                roster == self.roster(),
                recs == person_records(self.individuals@),
                self.spec_age_check(current) == age_check_roster(
                    roster.skip(i as int),
                    recs,
                    current,
                ),
            decreases n - i,
        {
            proof {
                assert(roster.skip(i as int)[0] == roster[i as int]);
            }
            let role = self.parties[i].role();
            if role == PartyType::DataOriginator || role == PartyType::DataCustodian || role
                == PartyType::DataRecipient {
                let id = &self.parties[i].as_party_info().entity_id;
                match find_individual(&self.individuals, id) {
                    None => {
                        return Err(
                            verr(
                                ValidationErrorKind::IdentityRecordMissing,
                                "An identity record for a party subject to the age check was not found.",
                            ),
                        );
                    },
                    Some(j) => {
                        let birth = self.individuals[j].date_of_birth;
                        let age = compute_age(birth, current);
                        if age < 17 {
                            return Err(
                                verr(
                                    ValidationErrorKind::AgeBelowThreshold,
                                    "An individual subject to the age check is under 17 years old.",
                                ),
                            );
                        }
                    },
                }
            }
            proof {
                assert(roster.skip(i as int).skip(1) =~= roster.skip(i as int + 1));
            }
            i = i + 1;
        }
        proof {
            assert(roster.skip(n as int).len() == 0);
        }
        Ok(())
    }

    /// Check 4 against the current UTC date.
    pub fn validate_individual_age_wrt_agency_privacy(&self) -> (r: Result<(), ValidationError>)
        ensures
            exists|d: CivilDate| verdict_of(r) == #[trigger] self.spec_age_check(d),
    {
        let d = today();
        let r = self.validate_individual_age_at(d);
        proof {
            assert(verdict_of(r) == self.spec_age_check(d));
        }
        r
    }

    /// Check 5, decided over the committed roster.
    pub fn validate_residual_payees(&self) -> (r: Result<(), ValidationError>)
        ensures
            verdict_of(r) == self.spec_residuals_check(),
    {
        match &self.residual_payments {
            None => Ok(()),
            Some(res) => {
                let m = res.beneficiaries.len();
                let mut i: usize = 0;
                while i < m
                    invariant
                        i <= m,
                        self.residual_payments matches Some(rr) && rr == *res,
                        m == res.beneficiaries@.len(),
                        forall|k: int|
                            0 <= k < i ==> roster_has_entity(
                                self.roster(),
                                (#[trigger] res.beneficiaries@[k])@.entity_id,
                            ),
                    decreases m - i,
                {
                    let beneficiary = &res.beneficiaries[i];
                    if !roster_contains_entity(
                        &self.parties,
                        &beneficiary.as_party_info().entity_id,
                    ) {
                        return Err(
                            verr(
                                ValidationErrorKind::BeneficiaryNotAParty,
                                "A residual beneficiary is not a party to the contract.",
                            ),
                        );
                    }
                    i = i + 1;
                }
                Ok(())
            },
        }
    }

    /// Run the five checks in order against the given current date, stopping
    /// at the first failure; no check mutates the contract.
    pub fn validate_and_execute_contract_at(&self, current: CivilDate) -> (r: Result<
        (),
        ValidationError,
    >)
        ensures
            verdict_of(r) == self.spec_validate(current),
    {
        match self.validate_generator_rate_spec() {
            Err(e) => return Err(e),
            Ok(()) => {},
        }
        match self.validate_individual_contribution_level() {
            Err(e) => return Err(e),
            Ok(()) => {},
        }
        match self.validate_irb_requirement() {
            Err(e) => return Err(e),
            Ok(()) => {},
        }
        match self.validate_individual_age_at(current) {
            Err(e) => return Err(e),
            Ok(()) => {},
        }
        match self.validate_residual_payees() {
            Err(e) => return Err(e),
            Ok(()) => {},
        }
        Ok(())
    }

    /// Run the five checks in order against the current UTC date.
    pub fn validate_and_execute_contract(&self) -> (r: Result<(), ValidationError>)
        ensures
            exists|d: CivilDate| verdict_of(r) == #[trigger] self.spec_validate(d),
    {
        let d = today();
        let r = self.validate_and_execute_contract_at(d);
        proof {
            assert(verdict_of(r) == self.spec_validate(d));
        }
        r
    }
}

/// The first check accepts a contract state exactly when the generator
/// rate is specified if and only if a data-generator party stands on the
/// roster — whatever sequence of admissions produced that roster.
pub proof fn lemma_generator_rate_iff(c: &HealthDataContract)
    ensures
        c.spec_generator_rate_check() is None <==> (roster_has_role(
            c.roster(),
            PartyType::DataGenerator,
        ) <==> c.generator_rate is Some),
{
}

/// Data-and-participation declared without a data originator on the roster
/// always yields the contribution-level verdict.
pub proof fn lemma_participation_needs_originator(c: &HealthDataContract)
    requires
        c.individual_contribution_level == Some(IndividualContributionLevel::DataAndParticipation),
        !roster_has_role(c.roster(), PartyType::DataOriginator),
    ensures
        c.spec_contribution_check() == Some(ValidationErrorKind::ContributionLevelInconsistent),
{
}

/// A residual beneficiary absent from the roster always drives validation to
/// the beneficiary-not-a-party verdict once the four earlier checks pass,
/// whatever the rest of the contract holds.
pub proof fn lemma_missing_beneficiary_rejected(
    c: &HealthDataContract,
    res: Residuals,
    current: CivilDate,
    i: int,
)
    requires
        c.residual_payments == Some(res),
        0 <= i < res.beneficiaries@.len(),
        !roster_has_entity(c.roster(), res.beneficiaries@[i]@.entity_id),
        c.spec_generator_rate_check() is None,
        c.spec_contribution_check() is None,
        c.spec_irb_check() is None,
        c.spec_age_check(current) is None,
    ensures
        c.spec_validate(current) == Some(ValidationErrorKind::BeneficiaryNotAParty),
{
    assert(!beneficiaries_are_members(res, c.roster()));
}

/// Find the index of the first individual carrying the identifier; the
/// result agrees with `find_birth` over the record images.
fn find_individual(inds: &Vec<Individual>, id: &EntityId) -> (r: Option<usize>)
    ensures
        match r {
            Some(j) => j < inds@.len() && find_birth(person_records(inds@), id@) == Some(
                inds@[j as int].date_of_birth,
            ),
            None => find_birth(person_records(inds@), id@) is None,
        },
{
    let ghost recs = person_records(inds@);
    let n = inds.len();
    let mut i: usize = 0;
    proof {
        assert(recs.skip(0) =~= recs);
    }
    while i < n
        invariant
            i <= n,
            n == inds@.len(),
            recs == person_records(inds@),
            find_birth(recs, id@) == find_birth(recs.skip(i as int), id@),
        decreases n - i,
    {
        proof {
            assert(recs.skip(i as int)[0] == recs[i as int]);
        }
        if inds[i].person_id.0 == id.0 {
            return Some(i);
        }
        proof {
            assert(recs.skip(i as int).skip(1) =~= recs.skip(i as int + 1));
        }
        i = i + 1;
    }
    proof {
        assert(recs.skip(n as int).len() == 0);
    }
    None
}

/// Whether some party in either vector carries the role.
fn pair_contains_role(a: &Vec<Party>, b: &Vec<Party>, role: PartyType) -> (r: bool)
    ensures
        r == roster_has_role(views_of(a@ + b@), role),
{
    let ghost combined = views_of(a@ + b@);
    let na = a.len();
    let mut i: usize = 0;
    while i < na
        invariant
            i <= na,
            na == a@.len(),
            combined == views_of(a@ + b@),
            forall|k: int| 0 <= k < i ==> #[trigger] combined[k].role != role,
        decreases na - i,
    {
        proof {
            assert(combined[i as int] == a@[i as int]@);
        }
        if a[i].role() == role {
            return true;
        }
        i = i + 1;
    }
    let nb = b.len();
    let mut j: usize = 0;
    while j < nb
        invariant
            j <= nb,
            na == a@.len(),
            nb == b@.len(),
            combined == views_of(a@ + b@),
            forall|k: int| 0 <= k < na + j ==> #[trigger] combined[k].role != role,
        decreases nb - j,
    {
        proof {
            assert(combined[na + j as int] == b@[j as int]@);
        }
        if b[j].role() == role {
            return true;
        }
        j = j + 1;
    }
    false
}

/// Whether some party in either vector carries an agent-like role.
fn pair_contains_agent_like(a: &Vec<Party>, b: &Vec<Party>) -> (r: bool)
    ensures
        r == roster_has_agent_like(views_of(a@ + b@)),
{
    let ghost combined = views_of(a@ + b@);
    let na = a.len();
    let mut i: usize = 0;
    while i < na
        invariant
            i <= na,
            na == a@.len(),
            combined == views_of(a@ + b@),
            forall|k: int| 0 <= k < i ==> !is_agent_like(#[trigger] combined[k].role),
        decreases na - i,
    {
        proof {
            assert(combined[i as int] == a@[i as int]@);
        }
        if role_is_agent_like(a[i].role()) {
            return true;
        }
        i = i + 1;
    }
    let nb = b.len();
    let mut j: usize = 0;
    while j < nb
        invariant
            j <= nb,
            na == a@.len(),
            nb == b@.len(),
            combined == views_of(a@ + b@),
            forall|k: int| 0 <= k < na + j ==> !is_agent_like(#[trigger] combined[k].role),
        decreases nb - j,
    {
        proof {
            assert(combined[na + j as int] == b@[j as int]@);
        }
        if role_is_agent_like(b[j].role()) {
            return true;
        }
        j = j + 1;
    }
    false
}

/// Whether some party in the vector carries the role.
fn roster_contains_role(parties: &Vec<Party>, role: PartyType) -> (r: bool)
    ensures
        r == roster_has_role(views_of(parties@), role),
{
    let n = parties.len();
    let mut i: usize = 0;
    while i < n
        invariant
            i <= n,
            n == parties@.len(),
            forall|k: int| 0 <= k < i ==> #[trigger] views_of(parties@)[k].role != role,
        decreases n - i,
    {
        proof {
            assert(views_of(parties@)[i as int] == parties@[i as int]@);
        }
        if parties[i].role() == role {
            return true;
        }
        i = i + 1;
    }
    false
}

/// Whether some party in the vector carries the identifier.
fn roster_contains_entity(parties: &Vec<Party>, id: &EntityId) -> (r: bool)
    ensures
        r == roster_has_entity(views_of(parties@), id@),
{
    let n = parties.len();
    let mut i: usize = 0;
    while i < n
        invariant
            i <= n,
            n == parties@.len(),
            forall|k: int| 0 <= k < i ==> #[trigger] views_of(parties@)[k].entity_id != id@,
        decreases n - i,
    {
        proof {
            assert(views_of(parties@)[i as int] == parties@[i as int]@);
        }
        if parties[i].as_party_info().entity_id.0 == id.0 {
            return true;
        }
        i = i + 1;
    }
    false
}

/// The two-party gate: the extended roster must hold exactly two parties and
/// the roles the structure requires.
fn check_two_party(
    t: &TwoPartyLegalStructure,
    current: &Vec<Party>,
    new_parties: &Vec<Party>,
) -> (r: Result<(), ValidationError>)
    ensures
        r is Ok <==> (current@.len() + new_parties@.len() == 2 && two_party_roles_ok(
            t,
            views_of(current@ + new_parties@),
        )),
        r matches Err(e) ==> e.kind == ValidationErrorKind::RoleMismatch,
{
    proof {
        assert(views_of(current@ + new_parties@).len() == current@.len() + new_parties@.len());
    }
    if current.len() as u128 + new_parties.len() as u128 != 2 {
        return Err(
            verr(
                ValidationErrorKind::RoleMismatch,
                "Two-party agreement requires exactly 2 parties.",
            ),
        );
    }
    let h_bank = pair_contains_role(current, new_parties, PartyType::HBank);
    match t {
        TwoPartyLegalStructure::Storage_or_Exchange(_) => {
            let provider = pair_contains_role(current, new_parties, PartyType::DataOriginator)
                || pair_contains_role(current, new_parties, PartyType::DataCustodian)
                || pair_contains_role(current, new_parties, PartyType::DataGenerator);
            if !provider || !h_bank {
                return Err(
                    verr(
                        ValidationErrorKind::RoleMismatch,
                        "Parties do not match required types for Storage or Exchange Agreement",
                    ),
                );
            }
        },
        TwoPartyLegalStructure::Donation(_) => {
            let donor = pair_contains_role(current, new_parties, PartyType::Donor);
            if !donor || !h_bank {
                return Err(
                    verr(
                        ValidationErrorKind::RoleMismatch,
                        "Parties do not match required types for Donation",
                    ),
                );
            }
        },
        TwoPartyLegalStructure::Advertisement(_) => {
            let advertiser = pair_contains_role(current, new_parties, PartyType::Advertiser);
            if !advertiser || !h_bank {
                return Err(
                    verr(
                        ValidationErrorKind::RoleMismatch,
                        "Parties do not match required types for Advertisement",
                    ),
                );
            }
        },
    }
    Ok(())
}

/// The three-plus-party gate: the extended roster must reach the variant's
/// minimum size and hold the roles the structure requires.
fn check_three_plus_party(
    t: &TransactionLegalStructure,
    current: &Vec<Party>,
    new_parties: &Vec<Party>,
) -> (r: Result<(), ValidationError>)
    ensures
        r is Ok <==> (current@.len() + new_parties@.len() >= transaction_min_parties(t)
            && transaction_roles_ok(t, views_of(current@ + new_parties@))),
        r matches Err(e) ==> e.kind == ValidationErrorKind::RoleMismatch,
{
    proof {
        assert(views_of(current@ + new_parties@).len() == current@.len() + new_parties@.len());
    }
    if (current.len() as u128 + new_parties.len() as u128) < 3 {
        return Err(
            verr(
                ValidationErrorKind::RoleMismatch,
                "Three-plus party agreement requires at least 3 parties.",
            ),
        );
    }
    let h_bank = pair_contains_role(current, new_parties, PartyType::HBank);
    let generator = pair_contains_role(current, new_parties, PartyType::DataGenerator);
    let agent = pair_contains_agent_like(current, new_parties);
    match t {
        TransactionLegalStructure::ConsultAgreement { .. } => {
            let consultant = pair_contains_role(current, new_parties, PartyType::DataConsultant);
            if !agent || !consultant || !generator || !h_bank {
                return Err(
                    verr(
                        ValidationErrorKind::RoleMismatch,
                        "Parties do not match required types for ConsultAgreement",
                    ),
                );
            }
        },
        TransactionLegalStructure::DirectSale { .. }
        | TransactionLegalStructure::PurchaseAgreement { .. }
        | TransactionLegalStructure::LicensingAgreement { .. }
        | TransactionLegalStructure::AccessAgreement { .. }
        | TransactionLegalStructure::SubscriptionAgreement { .. }
        | TransactionLegalStructure::DataExchangeAgreement { .. } => {
            let recipient = pair_contains_role(current, new_parties, PartyType::DataRecipient);
            if !agent || !recipient || !generator || !h_bank {
                return Err(
                    verr(
                        ValidationErrorKind::RoleMismatch,
                        "Parties do not match required types for this transaction agreement",
                    ),
                );
            }
        },
        TransactionLegalStructure::ConsortiumAgreement { .. } => {
            if !agent || !generator || !h_bank {
                return Err(
                    verr(
                        ValidationErrorKind::RoleMismatch,
                        "Parties do not match required types for ConsortiumAgreement",
                    ),
                );
            }
        },
        TransactionLegalStructure::ParticipationAgreement { .. } => {
            let funder = pair_contains_role(current, new_parties, PartyType::Funder);
            if !agent || !funder || !generator || !h_bank {
                return Err(
                    verr(
                        ValidationErrorKind::RoleMismatch,
                        "Parties do not match required types for ParticipationAgreement",
                    ),
                );
            }
        },
    }
    Ok(())
}

} // verus!
