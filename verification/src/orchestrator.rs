//! The execution orchestrator: validate the key, claim the pair, run the
//! side effect only when the claim was won, save its response, and replay
//! the saved response to every later caller.

use vstd::prelude::*;

use crate::key::{validate_model, IdempotencyKey, ValidationError};
use crate::record::{OwnerId, RecordModel};
use crate::response::{ResponseModel, SavedResponse};
use crate::store::{
    claim_model, complete_model, find_record, has_pair, model_wf, rollback_model, ClaimOutcome,
    IdempotencyStore, StoreError,
};

verus! {

/// Why an `execute` call returned no response.
#[derive(Debug)]
pub enum ExecuteError<E> {
    /// The raw key was rejected; the store was never consulted.
    Validation(ValidationError),
    /// The side effect failed; its claim was rolled back, so a retry with
    /// the same key may attempt the work again.
    SideEffect(E),
    /// The pair's record is in flight on behalf of an earlier claim that
    /// was never completed, so there is no response to replay yet.
    ClaimPending,
}

/// Model of an `execute` outcome.
pub enum ExecuteOutcomeModel<E> {
    Completed(ResponseModel),
    Rejected(ValidationError),
    Failed(E),
    Pending,
}

/// The outcome an `execute` result stands for.
pub open spec fn result_model<E>(result: Result<SavedResponse, ExecuteError<E>>) -> ExecuteOutcomeModel<E> {
    match result {
        Ok(resp) => ExecuteOutcomeModel::Completed(resp@),
        Err(ExecuteError::Validation(e)) => ExecuteOutcomeModel::Rejected(e),
        Err(ExecuteError::SideEffect(e)) => ExecuteOutcomeModel::Failed(e),
        Err(ExecuteError::ClaimPending) => ExecuteOutcomeModel::Pending,
    }
}

/// The view of what a side effect handed back.
pub open spec fn side_model<E>(side: Result<SavedResponse, E>) -> Result<ResponseModel, E> {
    match side {
        Ok(resp) => Ok(resp@),
        Err(e) => Err(e),
    }
}

/// `execute` runs the side effect exactly when the key is valid and the
/// pair has no record yet: only then is there a claim to win.
pub open spec fn runs_side_effect(s: Seq<RecordModel>, owner: u128, raw: Seq<char>) -> bool {
    match validate_model(raw) {
        Ok(k) => !has_pair(s, owner, k),
        Err(_) => false,
    }
}

/// What one `execute` call does, given the table it found and what the side
/// effect would hand back if consulted:
/// - an invalid key is rejected, the table untouched;
/// - a completed record is replayed verbatim, the table untouched;
/// - an in-flight record means an earlier claim was never completed; there
///   is nothing to replay, the table is untouched;
/// - a free pair is claimed: a successful side effect is saved as the
///   pair's completed record and returned, a failed one is reported with
///   its claim rolled back, leaving the table as it was.
pub open spec fn execute_model<E>(
    s: Seq<RecordModel>,
    owner: u128,
    raw: Seq<char>,
    now: u64,
    side: Result<ResponseModel, E>,
) -> (Seq<RecordModel>, ExecuteOutcomeModel<E>) {
    match validate_model(raw) {
        Err(e) => (s, ExecuteOutcomeModel::Rejected(e)),
        Ok(k) => match find_record(s, owner, k) {
            Some(r) => match r.response {
                Some(resp) => (s, ExecuteOutcomeModel::Completed(resp)),
                None => (s, ExecuteOutcomeModel::Pending),
            },
            None => match side {
                Ok(resp) => (
                    s.push(RecordModel { owner, key: k, created_at: now, response: Some(resp) }),
                    ExecuteOutcomeModel::Completed(resp),
                ),
                Err(e) => (s, ExecuteOutcomeModel::Failed(e)),
            },
        },
    }
}

/// Runs the guarded operation at most once for the pair.
///
/// The first caller to claim a valid (owner, key) pair runs `side_effect`;
/// its response is saved and returned, and every later call for the pair
/// returns that saved response byte for byte without consulting the side
/// effect. A failed side effect is reported and leaves no record, so a
/// retry with the same key attempts the work again.
///
/// A caller that finds the pair claimed but not completed would, against a
/// shared store, wait on the row until the winner commits and then re-read.
/// Here the call holds the store exclusively, so no winner can be mid-work:
/// an in-flight record can only be a claim made outside `execute` and never
/// finished, and the call reports [`ExecuteError::ClaimPending`] at once
/// rather than wait for a completion that cannot come.
pub fn execute<E, F: FnOnce() -> Result<SavedResponse, E>>(
    store: &mut IdempotencyStore,
    owner_id: OwnerId,
    raw_key: String,
    now: u64,
    side_effect: F,
) -> (result: Result<SavedResponse, ExecuteError<E>>)
    requires
        old(store).wf(),
        call_requires(side_effect, ()),
    ensures
        final(store).wf(),
        exists|side: Result<SavedResponse, E>|
            {
                &&& (runs_side_effect(old(store)@, owner_id.id, raw_key@) ==> call_ensures(
                    side_effect,
                    (),
                    side,
                ))
                &&& final(store)@ == execute_model(
                    old(store)@,
                    owner_id.id,
                    raw_key@,
                    now,
                    #[trigger] side_model(side),
                ).0
                &&& result_model(result) == execute_model(
                    old(store)@,
                    owner_id.id,
                    raw_key@,
                    now,
                    side_model(side),
                ).1
            },
{
    let ghost s0 = store@;
    proof {
        store.lemma_wf_model();
    }
    let key = match IdempotencyKey::validate(raw_key) {
        Ok(k) => k,
        Err(e) => {
            proof {
                let side: Result<SavedResponse, E> = Err(arbitrary());
                assert(side_model(side) is Err);
            }
            return Err(ExecuteError::Validation(e));
        },
    };
    match store.claim(owner_id, &key, now) {
        ClaimOutcome::AlreadyClaimedOrCompleted(Some(resp)) => {
            proof {
                let side: Result<SavedResponse, E> = Err(arbitrary());
                assert(side_model(side) is Err);
            }
            Ok(resp)
        },
        ClaimOutcome::AlreadyClaimedOrCompleted(None) => {
            proof {
                let side: Result<SavedResponse, E> = Err(arbitrary());
                assert(side_model(side) is Err);
            }
            Err(ExecuteError::ClaimPending)
        },
        ClaimOutcome::Claimed => {
            let ghost s1 = store@;
            match side_effect() {
                Ok(resp) => {
                    proof {
                        lemma_claim_then_complete(s0, owner_id.id, key@, now, resp@);
                        assert(side_model(Ok::<SavedResponse, E>(resp)) == Ok::<
                            ResponseModel,
                            E,
                        >(resp@));
                    }
                    match store.complete(owner_id, &key, &resp) {
                        Ok(()) => Ok(resp),
                        Err(StoreError::NoSuchClaim) => {
                            proof {
                                assert(false);
                            }
                            Err(ExecuteError::ClaimPending)
                        },
                    }
                },
                Err(e) => {
                    proof {
                        lemma_claim_then_rollback(s0, owner_id.id, key@, now);
                        assert(side_model(Err::<SavedResponse, E>(e)) is Err);
                    }
                    store.rollback_claim(owner_id, &key);
                    Err(ExecuteError::SideEffect(e))
                },
            }
        },
    }
}

/// Completing a freshly claimed pair amounts to appending its completed
/// record: the in-flight row the claim inserted is the one `complete`
/// fills, and no other row moves.
proof fn lemma_claim_then_complete(
    s: Seq<RecordModel>,
    owner: u128,
    key: Seq<char>,
    now: u64,
    resp: ResponseModel,
)
    requires
        model_wf(s),
        !has_pair(s, owner, key),
    ensures
        complete_model(claim_model(s, owner, key, now).0, owner, key, resp).1,
        complete_model(claim_model(s, owner, key, now).0, owner, key, resp).0 == s.push(
            RecordModel { owner, key, created_at: now, response: Some(resp) },
        ),
{
    let inflight = RecordModel { owner, key, created_at: now, response: None };
    let s1 = claim_model(s, owner, key, now).0;
    assert(s1 == s.push(inflight));
    assert(crate::store::pair_matches(s1[s.len() as int], owner, key));
    assert(has_pair(s1, owner, key));
    let i = crate::store::pair_index(s1, owner, key);
    assert(0 <= i < s1.len() && crate::store::pair_matches(s1[i], owner, key));
    if i < s.len() {
        assert(crate::store::pair_matches(s[i], owner, key));
        assert(has_pair(s, owner, key));
    }
    assert(i == s.len());
    assert(s1[i].response is None);
    assert(complete_model(s1, owner, key, resp).0 =~= s.push(
        RecordModel { owner, key, created_at: now, response: Some(resp) },
    ));
}

/// Rolling back a freshly claimed pair restores the table exactly: the
/// in-flight row the claim inserted is the one removed.
proof fn lemma_claim_then_rollback(s: Seq<RecordModel>, owner: u128, key: Seq<char>, now: u64)
    requires
        model_wf(s),
        !has_pair(s, owner, key),
    ensures
        rollback_model(claim_model(s, owner, key, now).0, owner, key) == s,
{
    let inflight = RecordModel { owner, key, created_at: now, response: None };
    let s1 = claim_model(s, owner, key, now).0;
    assert(s1 == s.push(inflight));
    assert(crate::store::pair_matches(s1[s.len() as int], owner, key));
    assert(has_pair(s1, owner, key));
    let i = crate::store::pair_index(s1, owner, key);
    assert(0 <= i < s1.len() && crate::store::pair_matches(s1[i], owner, key));
    if i < s.len() {
        assert(crate::store::pair_matches(s[i], owner, key));
        assert(has_pair(s, owner, key));
    }
    assert(i == s.len());
    assert(s1[i].response is None);
    assert(rollback_model(s1, owner, key) =~= s);
}

} // verus!
