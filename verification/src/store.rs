//! The idempotency store: a table of rows keyed by (owner, key), together
//! with the claim protocol's two atomic operations, `claim` and `complete`,
//! and the read-only `lookup`.
//!
//! The store is the sole serialization point of the guard: `claim` either
//! inserts a fresh in-flight row or reports the existing one in a single
//! step, so of any number of callers racing for one pair exactly the first
//! wins.

use vstd::prelude::*;
use vstd::pervasive::VecAdditionalExecFns;

use crate::key::IdempotencyKey;
use crate::record::{CodecError, IdempotencyRecord, OwnerId, RecordModel};
use crate::response::{ResponseModel, SavedResponse};

verus! {

/// What a `claim` call reports: either the caller has won the pair and must
/// run the side effect, or a record already existed, carrying its saved
/// response when it is completed and nothing while it is still in flight.
#[derive(Debug)]
pub enum ClaimOutcome {
    Claimed,
    AlreadyClaimedOrCompleted(Option<SavedResponse>),
}

/// Model of a claim outcome.
pub enum ClaimOutcomeModel {
    Claimed,
    AlreadyClaimedOrCompleted(Option<ResponseModel>),
}

impl View for ClaimOutcome {
    type V = ClaimOutcomeModel;

    open spec fn view(&self) -> ClaimOutcomeModel {
        match self {
            ClaimOutcome::Claimed => ClaimOutcomeModel::Claimed,
            ClaimOutcome::AlreadyClaimedOrCompleted(saved) => match saved {
                Some(resp) => ClaimOutcomeModel::AlreadyClaimedOrCompleted(Some(resp@)),
                None => ClaimOutcomeModel::AlreadyClaimedOrCompleted(None),
            },
        }
    }
}

/// Failure of a store operation. `complete` on a pair with no in-flight
/// record is a caller bug, reported rather than acted on.
#[derive(Clone, Copy, Debug, PartialEq, Eq, Structural)]
pub enum StoreError {
    NoSuchClaim,
}

/// A row matches a pair when both the owner and the key agree.
pub open spec fn pair_matches(r: RecordModel, owner: u128, key: Seq<char>) -> bool {
    r.owner == owner && r.key == key
}

/// Some row of the table holds the pair.
pub open spec fn has_pair(s: Seq<RecordModel>, owner: u128, key: Seq<char>) -> bool {
    exists|i: int| 0 <= i < s.len() && pair_matches(s[i], owner, key)
}

/// The index of the row holding the pair; meaningful under [`model_wf`],
/// which makes that row unique.
pub open spec fn pair_index(s: Seq<RecordModel>, owner: u128, key: Seq<char>) -> int {
    choose|i: int| 0 <= i < s.len() && pair_matches(s[i], owner, key)
}

/// The row holding the pair, if any.
pub open spec fn find_record(s: Seq<RecordModel>, owner: u128, key: Seq<char>) -> Option<
    RecordModel,
> {
    if has_pair(s, owner, key) {
        Some(s[pair_index(s, owner, key)])
    } else {
        None
    }
}

/// Table invariant: at most one row per (owner, key) pair, and every row
/// is well formed. This is the uniqueness guarantee of the store.
pub open spec fn model_wf(s: Seq<RecordModel>) -> bool {
    &&& forall|i: int, j: int|
        0 <= i < j < s.len() ==> !(#[trigger] pair_matches(s[j], s[i].owner, s[i].key))
    &&& forall|i: int| 0 <= i < s.len() ==> (#[trigger] s[i]).wf()
}

/// What `claim` does to the table: insert a fresh in-flight row when the
/// pair is free, report the existing row otherwise, never both.
pub open spec fn claim_model(s: Seq<RecordModel>, owner: u128, key: Seq<char>, now: u64) -> (
    Seq<RecordModel>,
    ClaimOutcomeModel,
) {
    match find_record(s, owner, key) {
        Some(r) => (s, ClaimOutcomeModel::AlreadyClaimedOrCompleted(r.response)),
        None => (
            s.push(RecordModel { owner, key, created_at: now, response: None }),
            ClaimOutcomeModel::Claimed,
        ),
    }
}

/// What `complete` does to the table: fill the response columns of the
/// pair's in-flight row in one step. A pair with no in-flight row — absent,
/// or already completed — is left untouched and the call fails.
pub open spec fn complete_model(
    s: Seq<RecordModel>,
    owner: u128,
    key: Seq<char>,
    resp: ResponseModel,
) -> (Seq<RecordModel>, bool) {
    match find_record(s, owner, key) {
        Some(r) => if r.response is None {
            (s.update(pair_index(s, owner, key), RecordModel { response: Some(resp), ..r }), true)
        } else {
            (s, false)
        },
        None => (s, false),
    }
}

/// What discarding a failed claim does to the table: the pair's in-flight
/// row is dropped, as the backing transaction of a claim is rolled back
/// when the winner's work fails. A completed row is never removed.
pub open spec fn rollback_model(s: Seq<RecordModel>, owner: u128, key: Seq<char>) -> Seq<
    RecordModel,
> {
    match find_record(s, owner, key) {
        Some(r) => if r.response is None {
            s.remove(pair_index(s, owner, key))
        } else {
            s
        },
        None => s,
    }
}

/// The durable table, one row per claimed (owner, key) pair.
#[derive(Debug)]
pub struct IdempotencyStore {
    records: Vec<IdempotencyRecord>,
}

impl View for IdempotencyStore {
    type V = Seq<RecordModel>;

    closed spec fn view(&self) -> Seq<RecordModel> {
        self.records@.map_values(|r: IdempotencyRecord| r@)
    }
}

impl IdempotencyStore {
    /// Representation invariant: every row is well formed.
    closed spec fn inv(&self) -> bool {
        forall|i: int| 0 <= i < self.records@.len() ==> (#[trigger] self.records@[i]).wf()
    }

    /// The store is well formed: rows are well formed and pairs unique.
    pub closed spec fn wf(&self) -> bool {
        self.inv() && model_wf(self@)
    }

    /// The well-formedness the model alone can see.
    pub proof fn lemma_wf_model(&self)
        requires
            self.wf(),
        ensures
            model_wf(self@),
    {
    }

    /// An empty table.
    pub fn new() -> (store: Self)
        ensures
            store.wf(),
            store@ == Seq::<RecordModel>::empty(),
    {
        let store = IdempotencyStore { records: Vec::new() };
        proof {
            assert(store@ =~= Seq::<RecordModel>::empty());
        }
        store
    }

    /// How many pairs have been claimed so far.
    pub fn len(&self) -> (n: usize)
        ensures
            n == self@.len(),
    {
        self.records.len()
    }

    /// The index of the pair's row, if one exists.
    fn find_index(&self, owner_id: OwnerId, key: &IdempotencyKey) -> (idx: Option<usize>)
        requires
            self.wf(),
        ensures
            match idx {
                Some(i) => has_pair(self@, owner_id.id, key@) && i == pair_index(
                    self@,
                    owner_id.id,
                    key@,
                ) && 0 <= i < self@.len() && pair_matches(self@[i as int], owner_id.id, key@),
                None => !has_pair(self@, owner_id.id, key@),
            },
    {
        let n = self.records.len();
        let mut i: usize = 0;
        while i < n
            invariant
                self.wf(),
                n == self@.len(),
                0 <= i <= n,
                forall|j: int| 0 <= j < i ==> !pair_matches(self@[j], owner_id.id, key@),
            decreases n - i,
        {
            let rec = &self.records[i];
            if rec.owner_id.id == owner_id.id && rec.idempotency_key.same_as(key) {
                proof {
                    assert(pair_matches(self@[i as int], owner_id.id, key@));
                    let c = pair_index(self@, owner_id.id, key@);
                    assert(0 <= c < self@.len() && pair_matches(self@[c], owner_id.id, key@));
                    if c < i as int {
                        assert(!pair_matches(self@[i as int], self@[c].owner, self@[c].key));
                    } else if c > i as int {
                        assert(!pair_matches(self@[c], self@[i as int].owner, self@[i as int].key));
                    }
                }
                return Some(i);
            }
            i += 1;
        }
        None
    }

    /// Atomically claims the pair: inserts a fresh in-flight row and reports
    /// `Claimed` when no row existed; otherwise leaves the table unchanged
    /// and reports the existing row, with its saved response once completed
    /// and with nothing while it is still in flight.
    pub fn claim(&mut self, owner_id: OwnerId, key: &IdempotencyKey, now: u64) -> (outcome:
        ClaimOutcome)
        requires
            old(self).wf(),
            key.wf(),
        ensures
            final(self).wf(),
            final(self)@ == claim_model(old(self)@, owner_id.id, key@, now).0,
            outcome@ == claim_model(old(self)@, owner_id.id, key@, now).1,
    {
        match self.find_index(owner_id, key) {
            Some(i) => {
                let saved = match self.records[i].decode_response() {
                    Ok(resp) => Some(resp),
                    Err(CodecError::RecordNotCompleted) => None,
                };
                ClaimOutcome::AlreadyClaimedOrCompleted(saved)
            },
            None => {
                let rec = IdempotencyRecord::new_in_flight(owner_id, key.clone(), now);
                proof {
                    let s = self@;
                    let pushed = s.push(rec@);
                    assert(self.records@.push(rec).map_values(|r: IdempotencyRecord| r@)
                        =~= pushed);
                    assert forall|i: int, j: int| 0 <= i < j < pushed.len() implies !(
                    #[trigger] pair_matches(pushed[j], pushed[i].owner, pushed[i].key)) by {
                        if j < s.len() {
                        } else {
                            assert(pushed[j] == rec@);
                            if pair_matches(pushed[j], pushed[i].owner, pushed[i].key) {
                                assert(pair_matches(s[i], owner_id.id, key@));
                            }
                        }
                    }
                }
                self.records.push(rec);
                ClaimOutcome::Claimed
            },
        }
    }

    /// Atomically completes the pair's in-flight claim, filling all three
    /// response columns in one step. Exactly when no in-flight row exists
    /// for the pair, nothing changes and the call fails with `NoSuchClaim`.
    pub fn complete(
        &mut self,
        owner_id: OwnerId,
        key: &IdempotencyKey,
        response: &SavedResponse,
    ) -> (result: Result<(), StoreError>)
        requires
            old(self).wf(),
            key.wf(),
        ensures
            final(self).wf(),
            final(self)@ == complete_model(old(self)@, owner_id.id, key@, response@).0,
            result is Ok <==> complete_model(old(self)@, owner_id.id, key@, response@).1,
            result is Err ==> result == Err::<(), StoreError>(StoreError::NoSuchClaim)
                && final(self)@ == old(self)@,
    {
        match self.find_index(owner_id, key) {
            Some(i) => {
                if self.records[i].response_status_code.is_some() {
                    Err(StoreError::NoSuchClaim)
                } else {
                    let completed = self.records[i].with_response(response);
                    proof {
                        let s = self@;
                        let updated = s.update(i as int, completed@);
                        assert(self.records@.update(i as int, completed).map_values(
                            |r: IdempotencyRecord| r@,
                        ) =~= updated);
                        assert(completed@ =~= (RecordModel {
                            response: Some(response@),
                            ..s[i as int]
                        }));
                        assert forall|p: int, q: int| 0 <= p < q < updated.len() implies !(
                        #[trigger] pair_matches(updated[q], updated[p].owner, updated[p].key)) by {
                            assert(updated[p].owner == s[p].owner && updated[p].key == s[p].key);
                            assert(updated[q].owner == s[q].owner && updated[q].key == s[q].key);
                            assert(!pair_matches(s[q], s[p].owner, s[p].key));
                        }
                    }
                    self.records.set(i, completed);
                    Ok(())
                }
            },
            None => Err(StoreError::NoSuchClaim),
        }
    }

    /// Read-only fetch of the pair's row, completed or in flight.
    pub fn lookup(&self, owner_id: OwnerId, key: &IdempotencyKey) -> (result: Option<
        IdempotencyRecord,
    >)
        requires
            self.wf(),
            key.wf(),
        ensures
            match result {
                Some(rec) => rec.wf() && find_record(self@, owner_id.id, key@) == Some(rec@),
                None => find_record(self@, owner_id.id, key@) is None,
            },
    {
        match self.find_index(owner_id, key) {
            Some(i) => Some(self.records[i].clone()),
            None => None,
        }
    }

    /// Discards the pair's in-flight row, as the backing transaction of a
    /// claim is rolled back when the winner's side effect fails. A completed
    /// row, and any other pair's row, is left exactly as it was.
    pub fn rollback_claim(&mut self, owner_id: OwnerId, key: &IdempotencyKey)
        requires
            old(self).wf(),
            key.wf(),
        ensures
            final(self).wf(),
            final(self)@ == rollback_model(old(self)@, owner_id.id, key@),
    {
        match self.find_index(owner_id, key) {
            Some(i) => {
                if self.records[i].response_status_code.is_none() {
                    proof {
                        let s = self@;
                        let removed = s.remove(i as int);
                        assert(self.records@.remove(i as int).map_values(
                            |r: IdempotencyRecord| r@,
                        ) =~= removed);
                        assert forall|p: int, q: int| 0 <= p < q < removed.len() implies !(
                        #[trigger] pair_matches(removed[q], removed[p].owner, removed[p].key)) by {
                            let p0: int = if p < i as int { p } else { p + 1 };
                            let q0: int = if q < i as int { q } else { q + 1 };
                            assert(removed[p] == s[p0] && removed[q] == s[q0]);
                            assert(!pair_matches(s[q0], s[p0].owner, s[p0].key));
                        }
                    }
                    self.records.remove(i);
                }
            },
            None => {},
        }
    }
}

} // verus!
