//! The party/role model: a closed set of nine role tags, each carrying a
//! participant's name and identifier. Parties are compared by identifier.

use vstd::prelude::*;

verus! {

/// An opaque unique identifier, compared by exact value.
#[derive(Debug)]
pub struct EntityId(pub String);

impl View for EntityId {
    type V = Seq<char>;

    open spec fn view(&self) -> Seq<char> {
        self.0@
    }
}

impl Clone for EntityId {
    fn clone(&self) -> (res: Self)
        ensures
            res@ == self@,
    {
        EntityId(self.0.clone())
    }
}

impl PartialEq for EntityId {
    fn eq(&self, other: &Self) -> (r: bool) {
        self.0 == other.0
    }
}

impl Eq for EntityId {}

impl vstd::std_specs::cmp::PartialEqSpecImpl for EntityId {
    open spec fn obeys_eq_spec() -> bool {
        true
    }

    open spec fn eq_spec(&self, other: &Self) -> bool {
        self@ == other@
    }
}

/// A participant's public data: display name and identifier.
#[derive(Debug)]
pub struct PartyInfo {
    pub name: String,
    pub entity_id: EntityId,
}

/// Spec-level image of a `PartyInfo`.
pub ghost struct PartyInfoV {
    pub name: Seq<char>,
    pub entity_id: Seq<char>,
}

impl View for PartyInfo {
    type V = PartyInfoV;

    open spec fn view(&self) -> PartyInfoV {
        PartyInfoV { name: self.name@, entity_id: self.entity_id@ }
    }
}

impl Clone for PartyInfo {
    fn clone(&self) -> (res: Self)
        ensures
            res@ == self@,
    {
        PartyInfo { name: self.name.clone(), entity_id: self.entity_id.clone() }
    }
}

/// The closed set of nine role tags.
#[derive(Clone, Copy, Debug, PartialEq, Eq, Structural)]
pub enum PartyType {
    HBank,
    DataOriginator,
    DataCustodian,
    DataRecipient,
    DataConsultant,
    DataGenerator,
    Funder,
    Donor,
    Advertiser,
}

/// A party to a contract: one of the nine role tags wrapping a `PartyInfo`.
#[derive(Debug)]
pub enum Party {
    HBank(PartyInfo),
    DataOriginator(PartyInfo),
    DataCustodian(PartyInfo),
    DataRecipient(PartyInfo),
    DataConsultant(PartyInfo),
    DataGenerator(PartyInfo),
    Funder(PartyInfo),
    Donor(PartyInfo),
    Advertiser(PartyInfo),
}

/// Spec-level image of a `Party`: its role tag and the fields of its info.
pub ghost struct PartyV {
    pub role: PartyType,
    pub name: Seq<char>,
    pub entity_id: Seq<char>,
}

impl Party {
    pub open spec fn spec_role(self) -> PartyType {
        match self {
            Party::HBank(_) => PartyType::HBank,
            Party::DataOriginator(_) => PartyType::DataOriginator,
            Party::DataCustodian(_) => PartyType::DataCustodian,
            Party::DataRecipient(_) => PartyType::DataRecipient,
            Party::DataConsultant(_) => PartyType::DataConsultant,
            Party::DataGenerator(_) => PartyType::DataGenerator,
            Party::Funder(_) => PartyType::Funder,
            Party::Donor(_) => PartyType::Donor,
            Party::Advertiser(_) => PartyType::Advertiser,
        }
    }

    pub open spec fn spec_info(self) -> PartyInfo {
        match self {
            Party::HBank(info) => info,
            Party::DataOriginator(info) => info,
            Party::DataCustodian(info) => info,
            Party::DataRecipient(info) => info,
            Party::DataConsultant(info) => info,
            Party::DataGenerator(info) => info,
            Party::Funder(info) => info,
            Party::Donor(info) => info,
            Party::Advertiser(info) => info,
        }
    }
}

impl View for Party {
    type V = PartyV;

    open spec fn view(&self) -> PartyV {
        PartyV {
            role: self.spec_role(),
            name: self.spec_info()@.name,
            entity_id: self.spec_info()@.entity_id,
        }
    }
}

impl Clone for Party {
    fn clone(&self) -> (res: Self)
        ensures
            res@ == self@,
    {
        match self {
            Party::HBank(info) => Party::HBank(info.clone()),
            Party::DataOriginator(info) => Party::DataOriginator(info.clone()),
            Party::DataCustodian(info) => Party::DataCustodian(info.clone()),
            Party::DataRecipient(info) => Party::DataRecipient(info.clone()),
            Party::DataConsultant(info) => Party::DataConsultant(info.clone()),
            Party::DataGenerator(info) => Party::DataGenerator(info.clone()),
            Party::Funder(info) => Party::Funder(info.clone()),
            Party::Donor(info) => Party::Donor(info.clone()),
            Party::Advertiser(info) => Party::Advertiser(info.clone()),
        }
    }
}

/// Equality between two parties is identifier equality.
impl PartialEq for Party {
    fn eq(&self, other: &Self) -> (r: bool) {
        self.as_party_info().entity_id.0 == other.as_party_info().entity_id.0
    }
}

impl vstd::std_specs::cmp::PartialEqSpecImpl for Party {
    open spec fn obeys_eq_spec() -> bool {
        true
    }

    open spec fn eq_spec(&self, other: &Self) -> bool {
        self@.entity_id == other@.entity_id
    }
}

impl Party {
    /// Tag a participant's info with the given role.
    pub fn new(name: String, entity_id: EntityId, party_type: PartyType) -> (p: Party)
        ensures
            p@.role == party_type,
            p@.name == name@,
            p@.entity_id == entity_id@,
    {
        let info = PartyInfo { name, entity_id };
        match party_type {
            PartyType::HBank => Party::HBank(info),
            PartyType::DataOriginator => Party::DataOriginator(info),
            PartyType::DataCustodian => Party::DataCustodian(info),
            PartyType::DataRecipient => Party::DataRecipient(info),
            PartyType::DataConsultant => Party::DataConsultant(info),
            PartyType::DataGenerator => Party::DataGenerator(info),
            PartyType::Funder => Party::Funder(info),
            PartyType::Donor => Party::Donor(info),
            PartyType::Advertiser => Party::Advertiser(info),
        }
    }

    /// The info carried by the party, whatever its role.
    pub fn as_party_info(&self) -> (info: &PartyInfo)
        ensures
            info@.name == self@.name,
            info@.entity_id == self@.entity_id,
    {
        match self {
            Party::HBank(info) => info,
            Party::DataOriginator(info) => info,
            Party::DataCustodian(info) => info,
            Party::DataRecipient(info) => info,
            Party::DataConsultant(info) => info,
            Party::DataGenerator(info) => info,
            Party::Funder(info) => info,
            Party::Donor(info) => info,
            Party::Advertiser(info) => info,
        }
    }

    /// The role tag of the party.
    pub fn role(&self) -> (t: PartyType)
        ensures
            t == self@.role,
    {
        match self {
            Party::HBank(_) => PartyType::HBank,
            Party::DataOriginator(_) => PartyType::DataOriginator,
            Party::DataCustodian(_) => PartyType::DataCustodian,
            Party::DataRecipient(_) => PartyType::DataRecipient,
            Party::DataConsultant(_) => PartyType::DataConsultant,
            Party::DataGenerator(_) => PartyType::DataGenerator,
            Party::Funder(_) => PartyType::Funder,
            Party::Donor(_) => PartyType::Donor,
            Party::Advertiser(_) => PartyType::Advertiser,
        }
    }
}

/// An agent-like role grants some degree of control over data:
/// originator, custodian, recipient, or consultant.
pub open spec fn is_agent_like(role: PartyType) -> bool {
    ||| role == PartyType::DataOriginator
    ||| role == PartyType::DataCustodian
    ||| role == PartyType::DataRecipient
    ||| role == PartyType::DataConsultant
}

/// The spec-level image of a roster of parties.
pub open spec fn views_of(parties: Seq<Party>) -> Seq<PartyV> {
    parties.map_values(|p: Party| p@)
}

/// Some member of the roster carries the given role tag.
pub open spec fn roster_has_role(roster: Seq<PartyV>, role: PartyType) -> bool {
    exists|i: int| 0 <= i < roster.len() && roster[i].role == role
}

/// Some member of the roster carries an agent-like role.
pub open spec fn roster_has_agent_like(roster: Seq<PartyV>) -> bool {
    exists|i: int| 0 <= i < roster.len() && is_agent_like(roster[i].role)
}

/// Some member of the roster has the given identifier.
pub open spec fn roster_has_entity(roster: Seq<PartyV>, id: Seq<char>) -> bool {
    exists|i: int| 0 <= i < roster.len() && roster[i].entity_id == id
}

/// Whether the given role tag is agent-like, decided in executable code.
pub fn role_is_agent_like(role: PartyType) -> (r: bool)
    ensures
        r == is_agent_like(role),
{
    match role {
        PartyType::DataOriginator => true,
        PartyType::DataCustodian => true,
        PartyType::DataRecipient => true,
        PartyType::DataConsultant => true,
        _ => false,
    }
}

} // verus!
