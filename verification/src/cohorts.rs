//! The cohort aggregator: named groups of contracts sharing a privacy
//! level, with a participant count that always equals the number of
//! distinct data-originator identifiers across the member contracts.

use vstd::prelude::*;
use crate::contract::HealthDataContract;
use crate::contract_fields::DataPrivacyLevel;
use crate::parties::{EntityId, Party, PartyType, PartyV, views_of};

verus! {

/// The typed cause of a cohort operation failure.
#[derive(Clone, Copy, Debug, PartialEq, Eq, Structural)]
pub enum CohortError {
    /// A cohort with the requested id already exists.
    DuplicateCohortId,
    /// No cohort carries the requested id.
    CohortNotFound,
    /// The cohort holds no contract with the requested id.
    ContractNotFound,
    /// The contract's privacy level differs from the cohort's.
    PrivacyLevelMismatch,
}

impl CohortError {
    /// A human-readable cause.
    pub fn message(&self) -> &str {
        match self {
            CohortError::DuplicateCohortId => "A cohort with this ID already exists",
            CohortError::CohortNotFound => "Cohort not found",
            CohortError::ContractNotFound => "Contract not found in cohort",
            CohortError::PrivacyLevelMismatch => "Contract privacy level does not match cohort privacy level",
        }
    }
}

/// The identifiers of the data-originator parties of a roster, in order.
pub open spec fn originator_ids_of(roster: Seq<PartyV>) -> Seq<Seq<char>>
    decreases roster.len(),
{
    if roster.len() == 0 {
        Seq::empty()
    } else if roster[0].role == PartyType::DataOriginator {
        seq![roster[0].entity_id] + originator_ids_of(roster.skip(1))
    } else {
        originator_ids_of(roster.skip(1))
    }
}

/// The originator identifiers of every contract, concatenated in order.
pub open spec fn cohort_originator_ids(contracts: Seq<HealthDataContract>) -> Seq<Seq<char>>
    decreases contracts.len(),
{
    if contracts.len() == 0 {
        Seq::empty()
    } else {
        originator_ids_of(contracts[0].roster()) + cohort_originator_ids(contracts.skip(1))
    }
}

/// The number of distinct data-originator identifiers across the contracts.
pub open spec fn distinct_originator_count(contracts: Seq<HealthDataContract>) -> nat {
    cohort_originator_ids(contracts).to_set().len()
}

/// A named grouping of contracts sharing a privacy level.
#[derive(Debug)]
pub struct Cohort {
    pub cohort_id: String,
    pub contracts: Vec<HealthDataContract>,
    pub privacy_level: DataPrivacyLevel,
    pub total_participants: usize,
}

impl Cohort {
    /// The cached participant count equals the number of distinct
    /// data-originator identifiers across the member contracts.
    pub open spec fn participants_accurate(&self) -> bool {
        self.total_participants == distinct_originator_count(self.contracts@)
    }
}

/// What a summary query reports about a cohort.
#[derive(Debug)]
pub struct CohortSummary {
    pub cohort_id: String,
    pub privacy_level: DataPrivacyLevel,
    pub total_participants: usize,
    pub contract_count: usize,
}

/// The index of the first cohort carrying the id, if any.
pub open spec fn find_cohort_index(cohorts: Seq<Cohort>, id: Seq<char>) -> Option<int>
    decreases cohorts.len(),
{
    if cohorts.len() == 0 {
        None
    } else if cohorts[0].cohort_id@ == id {
        Some(0)
    } else {
        match find_cohort_index(cohorts.skip(1), id) {
            None => None,
            Some(j) => Some(j + 1),
        }
    }
}

/// The index of the first contract carrying the id, if any.
pub open spec fn find_contract_index(
    contracts: Seq<HealthDataContract>,
    id: Seq<char>,
) -> Option<int>
    decreases contracts.len(),
{
    if contracts.len() == 0 {
        None
    } else if contracts[0].contract_id@ == id {
        Some(0)
    } else {
        match find_contract_index(contracts.skip(1), id) {
            None => None,
            Some(j) => Some(j + 1),
        }
    }
}

/// The spec-level image of a sequence of identifiers.
pub open spec fn id_views(ids: Seq<EntityId>) -> Seq<Seq<char>> {
    ids.map_values(|e: EntityId| e@)
}

/// Splitting a concatenation splits membership.
proof fn lemma_append_contains(a: Seq<Seq<char>>, b: Seq<Seq<char>>, x: Seq<char>)
    ensures
        (a + b).contains(x) <==> a.contains(x) || b.contains(x),
{
    if a.contains(x) {
        let i = choose|i: int| 0 <= i < a.len() && a[i] == x;
        assert((a + b)[i] == x);
    }
    if b.contains(x) {
        let i = choose|i: int| 0 <= i < b.len() && b[i] == x;
        assert((a + b)[a.len() + i] == x);
    }
    if (a + b).contains(x) {
        let i = choose|i: int| 0 <= i < (a + b).len() && (a + b)[i] == x;
        if i < a.len() {
            assert(a[i] == x);
        } else {
            assert(b[i - a.len()] == x);
        }
    }
}

/// How the originator-id sequence of a roster grows with the roster.
proof fn lemma_originator_ids_snoc(roster: Seq<PartyV>, p: PartyV)
    ensures
        originator_ids_of(roster.push(p)) == originator_ids_of(roster) + (if p.role
            == PartyType::DataOriginator {
            seq![p.entity_id]
        } else {
            Seq::<Seq<char>>::empty()
        }),
    decreases roster.len(),
{
    let tail: Seq<Seq<char>> = if p.role == PartyType::DataOriginator {
        seq![p.entity_id]
    } else {
        Seq::<Seq<char>>::empty()
    };
    if roster.len() == 0 {
        let pushed = roster.push(p);
        assert(pushed[0] == p);
        assert(originator_ids_of(Seq::<PartyV>::empty()) == Seq::<Seq<char>>::empty());
        assert(pushed.skip(1) =~= Seq::<PartyV>::empty());
        assert(originator_ids_of(pushed.skip(1)) == Seq::<Seq<char>>::empty());
        assert(originator_ids_of(roster) == Seq::<Seq<char>>::empty());
        if p.role == PartyType::DataOriginator {
            assert(originator_ids_of(pushed) == seq![p.entity_id] + Seq::<Seq<char>>::empty());
            assert(seq![p.entity_id] + Seq::<Seq<char>>::empty() =~= tail);
            assert(originator_ids_of(roster) + tail =~= tail);
        } else {
            assert(originator_ids_of(pushed) == Seq::<Seq<char>>::empty());
            assert(originator_ids_of(roster) + tail =~= tail);
        }
    } else {
        assert(roster.push(p).skip(1) =~= roster.skip(1).push(p));
        lemma_originator_ids_snoc(roster.skip(1), p);
        if roster[0].role == PartyType::DataOriginator {
            assert(originator_ids_of(roster.push(p)) == seq![roster[0].entity_id] + (
            originator_ids_of(roster.skip(1)) + tail));
            assert(seq![roster[0].entity_id] + (originator_ids_of(roster.skip(1)) + tail) =~= (
            seq![roster[0].entity_id] + originator_ids_of(roster.skip(1))) + tail);
        }
    }
}

/// How the cohort-wide id sequence grows with one more contract.
proof fn lemma_cohort_ids_snoc(contracts: Seq<HealthDataContract>, c: HealthDataContract)
    ensures
        cohort_originator_ids(contracts.push(c)) == cohort_originator_ids(contracts)
            + originator_ids_of(c.roster()),
    decreases contracts.len(),
{
    if contracts.len() == 0 {
        let pushed = contracts.push(c);
        assert(pushed[0] == c);
        assert(cohort_originator_ids(Seq::<HealthDataContract>::empty()) == Seq::<
            Seq<char>,
        >::empty());
        assert(pushed.skip(1) =~= Seq::<HealthDataContract>::empty());
        assert(cohort_originator_ids(pushed.skip(1)) == Seq::<Seq<char>>::empty());
        assert(cohort_originator_ids(contracts) == Seq::<Seq<char>>::empty());
        assert(cohort_originator_ids(pushed) == originator_ids_of(c.roster()) + Seq::<
            Seq<char>,
        >::empty());
        assert(originator_ids_of(c.roster()) + Seq::<Seq<char>>::empty() =~= originator_ids_of(
            c.roster(),
        ));
        assert(cohort_originator_ids(contracts) + originator_ids_of(c.roster())
            =~= originator_ids_of(c.roster()));
    } else {
        assert(contracts.push(c).skip(1) =~= contracts.skip(1).push(c));
        lemma_cohort_ids_snoc(contracts.skip(1), c);
        assert(cohort_originator_ids(contracts.push(c)) == originator_ids_of(contracts[0].roster())
            + (cohort_originator_ids(contracts.skip(1)) + originator_ids_of(c.roster())));
        assert(originator_ids_of(contracts[0].roster()) + (cohort_originator_ids(
            contracts.skip(1),
        ) + originator_ids_of(c.roster())) =~= (originator_ids_of(contracts[0].roster())
            + cohort_originator_ids(contracts.skip(1))) + originator_ids_of(c.roster()));
    }
}

/// Whether the identifier is already among the seen ones.
fn ids_contain(seen: &Vec<EntityId>, id: &EntityId) -> (r: bool)
    ensures
        r == id_views(seen@).contains(id@),
{
    let n = seen.len();
    let mut i: usize = 0;
    while i < n
        invariant
            i <= n,
            n == seen@.len(),
            forall|k: int| 0 <= k < i ==> #[trigger] id_views(seen@)[k] != id@,
        decreases n - i,
    {
        proof {
            assert(id_views(seen@)[i as int] == seen@[i as int]@);
        }
        if seen[i].0 == id.0 {
            return true;
        }
        i = i + 1;
    }
    false
}

impl Cohort {
    /// Recompute the cached participant count from the live member
    /// contracts: the number of distinct data-originator identifiers.
    pub fn update_total_participants(&mut self)
        ensures
            final(self).cohort_id == old(self).cohort_id,
            final(self).contracts == old(self).contracts,
            final(self).privacy_level == old(self).privacy_level,
            final(self).participants_accurate(),
    {
        broadcast use vstd::seq_lib::group_to_multiset_ensures;

        let mut seen: Vec<EntityId> = Vec::new();
        let ncon = self.contracts.len();
        let mut ci: usize = 0;
        proof {
            assert(id_views(seen@) =~= Seq::<Seq<char>>::empty());
            assert(cohort_originator_ids(self.contracts@.take(0)) =~= Seq::<Seq<char>>::empty());
        }
        while ci < ncon
            invariant
                ci <= ncon,
                ncon == self.contracts@.len(),
                id_views(seen@).no_duplicates(),
                forall|x: Seq<char>|
                    #[trigger] id_views(seen@).contains(x) <==> cohort_originator_ids(
                        self.contracts@.take(ci as int),
                    ).contains(x),
            decreases ncon - ci,
        {
            let parties: &Vec<Party> = &self.contracts[ci].parties;
            let ghost roster = views_of(parties@);
            let np = parties.len();
            let mut pi: usize = 0;
            proof {
                assert(roster.take(0) =~= Seq::<PartyV>::empty());
                assert(originator_ids_of(roster.take(0)) =~= Seq::<Seq<char>>::empty());
            }
            while pi < np
                invariant
                    pi <= np,
                    np == parties@.len(),
                    roster == views_of(parties@),
                    ncon == self.contracts@.len(),
                    ci < ncon,
                    roster == self.contracts@[ci as int].roster(),
                    id_views(seen@).no_duplicates(),
                    forall|x: Seq<char>|
                        #[trigger] id_views(seen@).contains(x) <==> (cohort_originator_ids(
                            self.contracts@.take(ci as int),
                        ).contains(x) || originator_ids_of(roster.take(pi as int)).contains(x)),
                decreases np - pi,
            {
                proof {
                    assert(roster[pi as int] == parties@[pi as int]@);
                    assert(roster.take(pi as int + 1) =~= roster.take(pi as int).push(
                        roster[pi as int],
                    ));
                    lemma_originator_ids_snoc(roster.take(pi as int), roster[pi as int]);
                }
                if parties[pi].role() == PartyType::DataOriginator {
                    let id = &parties[pi].as_party_info().entity_id;
                    let ghost seen_pre = seen@;
                    if !ids_contain(&seen, id) {
                        seen.push(id.clone());
                        proof {
                            assert(id_views(seen@) =~= id_views(seen_pre).push(id@));
                            assert forall|x: Seq<char>| #[trigger]
                                id_views(seen@).contains(x) implies (cohort_originator_ids(
                                self.contracts@.take(ci as int),
                            ).contains(x) || originator_ids_of(roster.take(pi as int + 1)).contains(
                                x,
                            )) by {
                                let iw = choose|iw: int|
                                    0 <= iw < id_views(seen@).len() && id_views(seen@)[iw] == x;
                                if iw < id_views(seen_pre).len() {
                                    assert(id_views(seen_pre).contains(x));
                                } else {
                                    assert(x == id@);
                                    assert(id@ == roster[pi as int].entity_id);
                                    assert(seq![roster[pi as int].entity_id][0] == x);
                                    assert(seq![roster[pi as int].entity_id].contains(x));
                                }
                                lemma_append_contains(
                                    originator_ids_of(roster.take(pi as int)),
                                    seq![roster[pi as int].entity_id],
                                    x,
                                );
                            }
                            assert forall|x: Seq<char>| (cohort_originator_ids(
                                self.contracts@.take(ci as int),
                            ).contains(x) || originator_ids_of(roster.take(pi as int + 1)).contains(
                                x,
                            )) implies #[trigger] id_views(seen@).contains(x) by {
                                lemma_append_contains(
                                    originator_ids_of(roster.take(pi as int)),
                                    seq![roster[pi as int].entity_id],
                                    x,
                                );
                                if id_views(seen_pre).contains(x) {
                                    let iw = choose|iw: int|
                                        0 <= iw < id_views(seen_pre).len() && id_views(
                                            seen_pre,
                                        )[iw] == x;
                                    assert(id_views(seen@)[iw] == x);
                                } else if x == id@ {
                                    assert(id_views(seen@).last() == id@);
                                }
                            }
                        }
                    } else {
                        proof {
                            assert forall|x: Seq<char>| #[trigger]
                                id_views(seen@).contains(x) <==> (cohort_originator_ids(
                                self.contracts@.take(ci as int),
                            ).contains(x) || originator_ids_of(roster.take(pi as int + 1)).contains(
                                x,
                            )) by {
                                lemma_append_contains(
                                    originator_ids_of(roster.take(pi as int)),
                                    seq![roster[pi as int].entity_id],
                                    x,
                                );
                            }
                        }
                    }
                } else {
                    proof {
                        assert(originator_ids_of(roster.take(pi as int + 1)) == originator_ids_of(
                            roster.take(pi as int),
                        ) + Seq::<Seq<char>>::empty());
                        assert(originator_ids_of(roster.take(pi as int)) + Seq::<
                            Seq<char>,
                        >::empty() =~= originator_ids_of(roster.take(pi as int)));
                    }
                }
                pi = pi + 1;
            }
            proof {
                assert(roster.take(np as int) =~= roster);
                assert(self.contracts@.take(ci as int + 1) =~= self.contracts@.take(
                    ci as int,
                ).push(self.contracts@[ci as int]));
                lemma_cohort_ids_snoc(self.contracts@.take(ci as int), self.contracts@[ci as int]);
                assert forall|x: Seq<char>| #[trigger]
                    id_views(seen@).contains(x) <==> cohort_originator_ids(
                    self.contracts@.take(ci as int + 1),
                ).contains(x) by {
                    lemma_append_contains(
                        cohort_originator_ids(self.contracts@.take(ci as int)),
                        originator_ids_of(self.contracts@[ci as int].roster()),
                        x,
                    );
                }
            }
            ci = ci + 1;
        }
        proof {
            assert(self.contracts@.take(ncon as int) =~= self.contracts@);
            id_views(seen@).unique_seq_to_set();
            assert(id_views(seen@).to_set() =~= cohort_originator_ids(self.contracts@).to_set());
            assert(id_views(seen@).len() == seen@.len());
        }
        self.total_participants = seen.len();
    }
}

/// The position of the first cohort carrying the id; it agrees with
/// `find_cohort_index`.
fn find_cohort_pos(cohorts: &Vec<Cohort>, id: &String) -> (r: Option<usize>)
    ensures
        match r {
            Some(j) => find_cohort_index(cohorts@, id@) == Some(j as int) && j < cohorts@.len()
                && cohorts@[j as int].cohort_id@ == id@,
            None => find_cohort_index(cohorts@, id@) is None,
        },
{
    let n = cohorts.len();
    let mut i: usize = 0;
    proof {
        assert(cohorts@.skip(0) =~= cohorts@);
    }
    while i < n
        invariant
            i <= n,
            n == cohorts@.len(),
            find_cohort_index(cohorts@, id@) == (match find_cohort_index(
                cohorts@.skip(i as int),
                id@,
            ) {
                None => None::<int>,
                Some(j) => Some(j + i),
            }),
        decreases n - i,
    {
        proof {
            assert(cohorts@.skip(i as int)[0] == cohorts@[i as int]);
        }
        if cohorts[i].cohort_id == *id {
            return Some(i);
        }
        proof {
            assert(cohorts@.skip(i as int).skip(1) =~= cohorts@.skip(i as int + 1));
        }
        i = i + 1;
    }
    proof {
        assert(cohorts@.skip(n as int).len() == 0);
    }
    None
}

/// The position of the first contract carrying the id; it agrees with
/// `find_contract_index`.
fn find_contract_pos(contracts: &Vec<HealthDataContract>, id: &String) -> (r: Option<usize>)
    ensures
        match r {
            Some(j) => find_contract_index(contracts@, id@) == Some(j as int) && j
                < contracts@.len(),
            None => find_contract_index(contracts@, id@) is None,
        },
{
    let n = contracts.len();
    let mut i: usize = 0;
    proof {
        assert(contracts@.skip(0) =~= contracts@);
    }
    while i < n
        invariant
            i <= n,
            n == contracts@.len(),
            find_contract_index(contracts@, id@) == (match find_contract_index(
                contracts@.skip(i as int),
                id@,
            ) {
                None => None::<int>,
                Some(j) => Some(j + i),
            }),
        decreases n - i,
    {
        proof {
            assert(contracts@.skip(i as int)[0] == contracts@[i as int]);
        }
        if contracts[i].contract_id == *id {
            return Some(i);
        }
        proof {
            assert(contracts@.skip(i as int).skip(1) =~= contracts@.skip(i as int + 1));
        }
        i = i + 1;
    }
    proof {
        assert(contracts@.skip(n as int).len() == 0);
    }
    None
}

/// The dependency-injected aggregator instance holding the cohort buckets.
#[derive(Debug)]
pub struct CohortManager {
    pub cohorts: Vec<Cohort>,
}

impl CohortManager {
    /// Every cohort's cached participant count is accurate.
    pub open spec fn wf(&self) -> bool {
        forall|i: int|
            0 <= i < self.cohorts@.len() ==> (#[trigger] self.cohorts@[i]).participants_accurate()
    }

    pub fn new() -> (m: CohortManager)
        ensures
            m.cohorts@.len() == 0,
            m.wf(),
    {
        CohortManager { cohorts: Vec::new() }
    }

    /// Create an empty cohort under a fresh id; reject a duplicate id.
    pub fn create_cohort(&mut self, cohort_id: String, privacy_level: DataPrivacyLevel) -> (r:
        Result<(), CohortError>)
        requires
            old(self).wf(),
        ensures
            final(self).wf(),
            r is Ok <==> find_cohort_index(old(self).cohorts@, cohort_id@) is None,
            r matches Err(e) ==> e == CohortError::DuplicateCohortId && final(self).cohorts@ == old(self).cohorts@,
            r is Ok ==> {
                &&& final(self).cohorts@.len() == old(self).cohorts@.len() + 1
                &&& final(self).cohorts@ == old(self).cohorts@.push(final(self).cohorts@.last())
                &&& final(self).cohorts@.last().cohort_id@ == cohort_id@
                &&& final(self).cohorts@.last().privacy_level == privacy_level
                &&& final(self).cohorts@.last().contracts@.len() == 0
                &&& final(self).cohorts@.last().total_participants == 0
            },
    {
        match find_cohort_pos(&self.cohorts, &cohort_id) {
            Some(_) => Err(CohortError::DuplicateCohortId),
            None => {
                let cohort = Cohort {
                    cohort_id,
                    contracts: Vec::new(),
                    privacy_level,
                    total_participants: 0,
                };
                proof {
                    assert(cohort_originator_ids(cohort.contracts@) =~= Seq::<Seq<char>>::empty());
                    assert(Seq::<Seq<char>>::empty().to_set() =~= Set::<Seq<char>>::empty());
                }
                self.cohorts.push(cohort);
                Ok(())
            },
        }
    }

    /// Add a contract to the named cohort; the privacy levels must agree,
    /// and the participant count is brought up to date.
    pub fn add_contract_to_cohort(&mut self, cohort_id: &String, contract: HealthDataContract) -> (
    r: Result<(), CohortError>)
        requires
            old(self).wf(),
        ensures
            final(self).wf(),
            match find_cohort_index(old(self).cohorts@, cohort_id@) {
                None => r matches Err(e) && e == CohortError::CohortNotFound && final(self).cohorts@ == old(self).cohorts@,
                Some(j) => {
                    if old(self).cohorts@[j].privacy_level != contract.privacy_level {
                        r matches Err(e) && e == CohortError::PrivacyLevelMismatch && final(self).cohorts@ == old(self).cohorts@
                    } else {
                        &&& r is Ok
                        &&& final(self).cohorts@.len() == old(self).cohorts@.len()
                        &&& final(self).cohorts@[j].contracts@ == old(self).cohorts@[j].contracts@.push(contract)
                        &&& final(self).cohorts@[j].cohort_id == old(self).cohorts@[j].cohort_id
                        &&& final(self).cohorts@[j].privacy_level == old(self).cohorts@[j].privacy_level
                        &&& forall|k: int|
                            0 <= k < old(self).cohorts@.len() && k != j ==> final(self).cohorts@[k]
                                == old(self).cohorts@[k]
                    }
                },
            },
    {
        match find_cohort_pos(&self.cohorts, cohort_id) {
            None => Err(CohortError::CohortNotFound),
            Some(j) => {
                let matches_level = {
                    let level: &DataPrivacyLevel = &self.cohorts[j].privacy_level;
                    *level == contract.privacy_level
                };
                if !matches_level {
                    Err(CohortError::PrivacyLevelMismatch)
                } else {
                    let cohort = &mut self.cohorts[j];
                    cohort.contracts.push(contract);
                    cohort.update_total_participants();
                    Ok(())
                }
            },
        }
    }

    /// Remove the named contract from the named cohort; the participant
    /// count is brought up to date.
    pub fn remove_contract_from_cohort(&mut self, cohort_id: &String, contract_id: &String) -> (r:
        Result<(), CohortError>)
        requires
            old(self).wf(),
        ensures
            final(self).wf(),
            match find_cohort_index(old(self).cohorts@, cohort_id@) {
                None => r matches Err(e) && e == CohortError::CohortNotFound && final(self).cohorts@ == old(self).cohorts@,
                Some(j) => {
                    match find_contract_index(old(self).cohorts@[j].contracts@, contract_id@) {
                        None => r matches Err(e) && e == CohortError::ContractNotFound && final(self).cohorts@ == old(self).cohorts@,
                        Some(k) => {
                            &&& r is Ok
                            &&& final(self).cohorts@.len() == old(self).cohorts@.len()
                            &&& final(self).cohorts@[j].contracts@ == old(self).cohorts@[j].contracts@.remove(k)
                            &&& final(self).cohorts@[j].cohort_id == old(self).cohorts@[j].cohort_id
                            &&& final(self).cohorts@[j].privacy_level == old(self).cohorts@[j].privacy_level
                            &&& forall|kk: int|
                                0 <= kk < old(self).cohorts@.len() && kk != j ==> final(self).cohorts@[kk] == old(self).cohorts@[kk]
                        },
                    }
                },
            },
    {
        match find_cohort_pos(&self.cohorts, cohort_id) {
            None => Err(CohortError::CohortNotFound),
            Some(j) => {
                let pos = find_contract_pos(&self.cohorts[j].contracts, contract_id);
                match pos {
                    None => Err(CohortError::ContractNotFound),
                    Some(k) => {
                        let cohort = &mut self.cohorts[j];
                        cohort.contracts.remove(k);
                        cohort.update_total_participants();
                        Ok(())
                    },
                }
            },
        }
    }

    /// Report the named cohort: its privacy level, its live distinct
    /// data-originator count, and how many contracts it holds.
    pub fn get_cohort_summary(&self, cohort_id: &String) -> (r: Result<CohortSummary, CohortError>)
        requires
            self.wf(),
        ensures
            match find_cohort_index(self.cohorts@, cohort_id@) {
                None => r matches Err(e) && e == CohortError::CohortNotFound,
                Some(j) => r matches Ok(s) && s.cohort_id@ == self.cohorts@[j].cohort_id@
                    && s.privacy_level == self.cohorts@[j].privacy_level && s.total_participants
                    == distinct_originator_count(self.cohorts@[j].contracts@) && s.contract_count
                    == self.cohorts@[j].contracts@.len(),
            },
    {
        match find_cohort_pos(&self.cohorts, cohort_id) {
            None => Err(CohortError::CohortNotFound),
            Some(j) => {
                let cohort = &self.cohorts[j];
                Ok(
                    CohortSummary {
                        cohort_id: cohort.cohort_id.clone(),
                        privacy_level: cohort.privacy_level,
                        total_participants: cohort.total_participants,
                        contract_count: cohort.contracts.len(),
                    },
                )
            },
        }
    }

    /// The ids of all cohorts, in bucket order.
    pub fn list_cohorts(&self) -> (r: Vec<String>)
        ensures
            r@.len() == self.cohorts@.len(),
            forall|i: int| 0 <= i < r@.len() ==> #[trigger] r@[i]@ == self.cohorts@[i].cohort_id@,
    {
        let mut out: Vec<String> = Vec::new();
        let n = self.cohorts.len();
        let mut i: usize = 0;
        while i < n
            invariant
                i <= n,
                n == self.cohorts@.len(),
                out@.len() == i,
                forall|k: int|
                    0 <= k < i ==> #[trigger] out@[k]@ == self.cohorts@[k].cohort_id@,
            decreases n - i,
        {
            out.push(self.cohorts[i].cohort_id.clone());
            i = i + 1;
        }
        out
    }
}

} // verus!
