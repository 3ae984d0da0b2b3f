//! Identity records: natural persons and corporations, keyed by an opaque
//! identifier. The contract validators only read them.

use vstd::prelude::*;
use crate::parties::EntityId;
use crate::dates::CivilDate;
use crate::text::sorted_and_joined;

verus! {

/// A well-formed HLA allele designation: one ASCII uppercase letter, two
/// ASCII digits, a colon, and two more ASCII digits, as in `A02:01`.
pub open spec fn is_hla_allele(s: Seq<char>) -> bool {
    &&& s.len() == 6
    &&& 'A' as u32 <= s[0] as u32 <= 'Z' as u32
    &&& '0' as u32 <= s[1] as u32 <= '9' as u32
    &&& '0' as u32 <= s[2] as u32 <= '9' as u32
    &&& s[3] == ':'
    &&& '0' as u32 <= s[4] as u32 <= '9' as u32
    &&& '0' as u32 <= s[5] as u32 <= '9' as u32
}

/// Relies on `regex::Regex::{new, is_match}` with the doubly anchored
/// pattern `^[A-Z][0-9]{2}:[0-9]{2}$`, whose classes are plain ASCII ranges:
/// it matches exactly the strings `is_hla_allele` describes.
#[verifier::external_body]
fn hla_allele_matches(allele: &str) -> (r: bool)
    ensures
        r == is_hla_allele(allele@),
{
    regex::Regex::new(r"^[A-Z][0-9]{2}:[0-9]{2}$").unwrap().is_match(allele)
}

/// What `regex::Regex::is_match` returns for the employer-identification
/// pattern `^\d{2}-\d{7}$`; `\d` admits every Unicode decimal digit, so the
/// full relation is not written out here.
pub uninterp spec fn ein_matches(s: Seq<char>) -> bool;

/// An EIN written with ASCII digits only: two digits, a dash, seven digits.
pub open spec fn is_ascii_ein(s: Seq<char>) -> bool {
    &&& s.len() == 10
    &&& '0' as u32 <= s[0] as u32 <= '9' as u32
    &&& '0' as u32 <= s[1] as u32 <= '9' as u32
    &&& s[2] == '-'
    &&& forall|i: int| 3 <= i < 10 ==> '0' as u32 <= #[trigger] (s[i] as u32) <= '9' as u32
}

/// Relies on `regex::Regex::{new, is_match}` with the doubly anchored
/// pattern `^\d{2}-\d{7}$`: the result depends on the characters alone;
/// every ASCII-digit EIN matches, and a match always has ten characters.
#[verifier::external_body]
fn ein_format_is_match(ein: &str) -> (r: bool)
    ensures
        r == ein_matches(ein@),
        is_ascii_ein(ein@) ==> r,
        ein@.len() != 10 ==> !r,
{
    regex::Regex::new(r"^\d{2}-\d{7}$").unwrap().is_match(ein)
}

/// A natural person, linked uniquely to their `person_id`. The birth date is
/// read by the contract eligibility check.
#[derive(Debug)]
pub struct Individual {
    pub name: String,
    pub person_id: EntityId,
    pub hla_profile: Option<String>,
    pub blood_type: Option<String>,
    pub date_of_birth: CivilDate,
}

impl Individual {
    pub fn new(name: String, person_id: EntityId, date_of_birth: CivilDate) -> (p: Individual)
        ensures
            p.name@ == name@,
            p.person_id@ == person_id@,
            p.hla_profile is None,
            p.blood_type is None,
            p.date_of_birth == date_of_birth,
    {
        Individual { name, person_id, hla_profile: None, blood_type: None, date_of_birth }
    }

    pub fn get_person_id(&self) -> (id: &EntityId)
        ensures
            id@ == self.person_id@,
    {
        &self.person_id
    }

    pub fn get_name(&self) -> (name: &str)
        ensures
            name@ == self.name@,
    {
        self.name.as_str()
    }

    pub fn add_blood_type(&mut self, blood_type: &str)
        ensures
            final(self).blood_type matches Some(b) && b@ == blood_type@,
            final(self).name == old(self).name,
            final(self).person_id == old(self).person_id,
            final(self).hla_profile == old(self).hla_profile,
            final(self).date_of_birth == old(self).date_of_birth,
    {
        self.blood_type = Some(blood_type.to_string());
    }

    /// Record the sorted profile when every allele is well formed; leave the
    /// record unchanged otherwise.
    pub fn add_hla_profile(&mut self, alleles: Vec<&str>)
        ensures
            if (forall|i: int| 0 <= i < alleles@.len() ==> is_hla_allele(#[trigger] alleles@[i]@)) {
                final(self).hla_profile matches Some(p) && sorted_and_joined(alleles.deep_view(), p@)
            } else {
                final(self).hla_profile == old(self).hla_profile
            },
            final(self).name == old(self).name,
            final(self).person_id == old(self).person_id,
            final(self).blood_type == old(self).blood_type,
            final(self).date_of_birth == old(self).date_of_birth,
    {
        if Self::validate_hla_alleles(alleles.as_slice()) {
            self.hla_profile = Some(Self::create_sorted_hla_profile(alleles.as_slice()));
        }
    }

    /// Sort the alleles lexicographically and join them with commas.
    pub fn create_sorted_hla_profile(alleles: &[&str]) -> (profile: String)
        ensures
            sorted_and_joined(alleles.deep_view(), profile@),
    {
        crate::text::sort_and_join(alleles)
    }

    /// Every allele has the form letter, two digits, colon, two digits.
    pub fn validate_hla_alleles(alleles: &[&str]) -> (r: bool)
        ensures
            r == (forall|i: int| 0 <= i < alleles@.len() ==> is_hla_allele(#[trigger] alleles@[i]@)),
    {
        let n = alleles.len();
        let mut i: usize = 0;
        while i < n
            invariant
                n == alleles@.len(),
                i <= n,
                forall|j: int| 0 <= j < i ==> is_hla_allele(#[trigger] alleles@[j]@),
            decreases n - i,
        {
            let allele: &str = *vstd::slice::slice_index_get(alleles, i);
            if !hla_allele_matches(allele) {
                return false;
            }
            i = i + 1;
        }
        true
    }
}

/// A corporate entity, linked uniquely to its `person_id`.
#[derive(Debug)]
pub struct Corporation {
    pub name: String,
    pub person_id: EntityId,
    pub tax_id: Option<String>,
}

impl Corporation {
    pub fn new(name: String, person_id: EntityId) -> (c: Corporation)
        ensures
            c.name@ == name@,
            c.person_id@ == person_id@,
            c.tax_id is None,
    {
        Corporation { name, person_id, tax_id: None }
    }

    pub fn get_person_id(&self) -> (id: &EntityId)
        ensures
            id@ == self.person_id@,
    {
        &self.person_id
    }

    pub fn get_name(&self) -> (name: &str)
        ensures
            name@ == self.name@,
    {
        self.name.as_str()
    }

    /// Whether the EIN has the expected two-digits, dash, seven-digits form.
    pub fn validate_ein_format(ein: &str) -> (r: bool)
        ensures
            r == ein_matches(ein@),
            is_ascii_ein(ein@) ==> r,
            ein@.len() != 10 ==> !r,
    {
        ein_format_is_match(ein)
    }

    /// Record the tax id when it is a well-formed EIN; leave the record
    /// unchanged otherwise.
    pub fn add_tax_id(&mut self, ein: &str)
        ensures
            if ein_matches(ein@) {
                final(self).tax_id matches Some(t) && t@ == ein@
            } else {
                final(self).tax_id == old(self).tax_id
            },
            final(self).name == old(self).name,
            final(self).person_id == old(self).person_id,
    {
        if Self::validate_ein_format(ein) {
            self.tax_id = Some(ein.to_string());
        }
    }
}

} // verus!
