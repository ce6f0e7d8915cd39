//! The guarantees of the guard, stated and proved over the store model.

use vstd::prelude::*;

use crate::key::validate_model;
use crate::orchestrator::{execute_model, ExecuteOutcomeModel};
use crate::record::RecordModel;
use crate::response::ResponseModel;
use crate::store::{
    claim_model, complete_model, find_record, has_pair, model_wf, pair_index, pair_matches,
    rollback_model, ClaimOutcomeModel,
};

verus! {

/// Uniqueness: in a well-formed table at most one row holds any given
/// (owner, key) pair.
pub proof fn lemma_at_most_one_record(s: Seq<RecordModel>, owner: u128, key: Seq<char>)
    requires
        model_wf(s),
    ensures
        forall|i: int, j: int|
            0 <= i < s.len() && 0 <= j < s.len() && #[trigger] pair_matches(s[i], owner, key)
                && #[trigger] pair_matches(s[j], owner, key) ==> i == j,
{
    assert forall|i: int, j: int|
        0 <= i < s.len() && 0 <= j < s.len() && #[trigger] pair_matches(s[i], owner, key)
            && #[trigger] pair_matches(s[j], owner, key) implies i == j by {
        if i < j {
            assert(!pair_matches(s[j], s[i].owner, s[i].key));
        } else if j < i {
            assert(!pair_matches(s[i], s[j].owner, s[j].key));
        }
    }
}

/// Uniqueness, dynamic form: once any claim has been made for a pair, a
/// second claim for the same pair never inserts a second row — it leaves
/// the table exactly as the first claim left it, and does not win.
pub proof fn lemma_second_claim_adds_no_row(
    s: Seq<RecordModel>,
    owner: u128,
    key: Seq<char>,
    now1: u64,
    now2: u64,
)
    requires
        model_wf(s),
    ensures
        claim_model(claim_model(s, owner, key, now1).0, owner, key, now2).0 == claim_model(
            s,
            owner,
            key,
            now1,
        ).0,
        !(claim_model(claim_model(s, owner, key, now1).0, owner, key, now2).1
            is Claimed),
{
    let s1 = claim_model(s, owner, key, now1).0;
    if has_pair(s, owner, key) {
        assert(s1 == s);
    } else {
        assert(pair_matches(s1[s.len() as int], owner, key));
        assert(has_pair(s1, owner, key));
    }
}

/// Race safety: of two claims for the same pair, in either order, only the
/// first can win; the later one observes the existing record instead.
pub proof fn lemma_single_winner(
    s: Seq<RecordModel>,
    owner: u128,
    key: Seq<char>,
    now1: u64,
    now2: u64,
)
    requires
        model_wf(s),
    ensures
        !(claim_model(s, owner, key, now1).1 is Claimed && claim_model(
            claim_model(s, owner, key, now1).0,
            owner,
            key,
            now2,
        ).1 is Claimed),
{
    lemma_second_claim_adds_no_row(s, owner, key, now1, now2);
}

/// Race safety, interleaved: two callers race for a free pair through the
/// store, the sole serialization point. The first claim wins; the second,
/// arriving before the winner completed, observes the in-flight record and
/// must wait; once the winner completes with `resp`, the pair's record
/// carries exactly `resp`, which is what the waiting caller's re-check
/// replays. The loser never runs the work and never overwrites the winner's
/// response.
pub proof fn lemma_race_interleaving(
    s: Seq<RecordModel>,
    owner: u128,
    key: Seq<char>,
    now1: u64,
    now2: u64,
    resp: ResponseModel,
)
    requires
        model_wf(s),
        !has_pair(s, owner, key),
    ensures
        claim_model(s, owner, key, now1).1 is Claimed,
        claim_model(claim_model(s, owner, key, now1).0, owner, key, now2).1
            == ClaimOutcomeModel::AlreadyClaimedOrCompleted(None::<ResponseModel>),
        complete_model(claim_model(s, owner, key, now1).0, owner, key, resp).1,
        find_record(
            complete_model(claim_model(s, owner, key, now1).0, owner, key, resp).0,
            owner,
            key,
        ) == Some(RecordModel { owner, key, created_at: now1, response: Some(resp) }),
{
    let inflight = RecordModel { owner, key, created_at: now1, response: None };
    let completed = RecordModel { owner, key, created_at: now1, response: Some(resp) };
    let s1 = claim_model(s, owner, key, now1).0;
    assert(s1 == s.push(inflight));
    assert(pair_matches(s1[s.len() as int], owner, key));
    assert(has_pair(s1, owner, key));
    let i = pair_index(s1, owner, key);
    assert(0 <= i < s1.len() && pair_matches(s1[i], owner, key));
    if i < s.len() {
        assert(pair_matches(s[i], owner, key));
        assert(has_pair(s, owner, key));
    }
    assert(i == s.len());
    assert(find_record(s1, owner, key) == Some(inflight));
    let s2 = complete_model(s1, owner, key, resp).0;
    assert(s2 == s1.update(i, completed));
    assert(pair_matches(s2[i], owner, key));
    assert(has_pair(s2, owner, key));
    let j = pair_index(s2, owner, key);
    assert(0 <= j < s2.len() && pair_matches(s2[j], owner, key));
    if j < s.len() {
        assert(s2[j] == s[j]);
        assert(has_pair(s, owner, key));
    }
    assert(j == i);
}

/// Every operation of the guard preserves the table's well-formedness, so
/// the uniqueness of [`lemma_at_most_one_record`] holds in every reachable
/// table.
pub proof fn lemma_execute_preserves_wf<E>(
    s: Seq<RecordModel>,
    owner: u128,
    raw: Seq<char>,
    now: u64,
    side: Result<ResponseModel, E>,
)
    requires
        model_wf(s),
    ensures
        model_wf(execute_model(s, owner, raw, now, side).0),
{
    let s1 = execute_model(s, owner, raw, now, side).0;
    if s1 != s {
        match validate_model(raw) {
            Ok(k) => {
                assert(!has_pair(s, owner, k));
                assert(s1.len() == s.len() + 1);
                assert forall|i: int, j: int| 0 <= i < j < s1.len() implies !(
                #[trigger] pair_matches(s1[j], s1[i].owner, s1[i].key)) by {
                    if j < s.len() {
                        assert(!pair_matches(s[j], s[i].owner, s[i].key));
                    } else {
                        if pair_matches(s1[j], s1[i].owner, s1[i].key) {
                            assert(pair_matches(s[i], owner, k));
                        }
                    }
                }
            },
            Err(_) => {},
        }
    }
}

/// Lifecycle: there is no transition out of `Completed`. Once the pair's
/// record carries a saved response, no store operation changes the table:
/// a claim only reports the saved response, a second completion fails, and
/// a rollback removes nothing.
pub proof fn lemma_completed_record_is_final(
    s: Seq<RecordModel>,
    owner: u128,
    key: Seq<char>,
    now: u64,
    resp: ResponseModel,
    saved: ResponseModel,
)
    requires
        model_wf(s),
        match find_record(s, owner, key) {
            Some(r) => r.response == Some(saved),
            None => false,
        },
    ensures
        claim_model(s, owner, key, now) == (
            s,
            ClaimOutcomeModel::AlreadyClaimedOrCompleted(Some(saved)),
        ),
        complete_model(s, owner, key, resp) == (s, false),
        rollback_model(s, owner, key) == s,
{
}

/// Replay equality: once an `execute` call has completed the pair with
/// response `r`, every later `execute` call for the same pair returns `r`
/// unchanged and leaves the whole table untouched — whatever its own side
/// effect would have produced, because the side effect is not consulted.
pub proof fn lemma_replay_equality<E1, E2>(
    s: Seq<RecordModel>,
    owner: u128,
    raw: Seq<char>,
    now1: u64,
    now2: u64,
    side1: Result<ResponseModel, E1>,
    side2: Result<ResponseModel, E2>,
    r: ResponseModel,
)
    requires
        model_wf(s),
        execute_model(s, owner, raw, now1, side1).1 == ExecuteOutcomeModel::<E1>::Completed(r),
    ensures
        execute_model(execute_model(s, owner, raw, now1, side1).0, owner, raw, now2, side2).0
            == execute_model(s, owner, raw, now1, side1).0,
        execute_model(execute_model(s, owner, raw, now1, side1).0, owner, raw, now2, side2).1
            == ExecuteOutcomeModel::<E2>::Completed(r),
{
    let k = match validate_model(raw) {
        Ok(k) => k,
        Err(_) => arbitrary(),
    };
    let s1 = execute_model(s, owner, raw, now1, side1).0;
    match find_record(s, owner, k) {
        Some(rec) => {
            assert(rec.response == Some(r));
            assert(s1 == s);
        },
        None => {
            let completed = RecordModel { owner, key: k, created_at: now1, response: Some(r) };
            assert(s1 == s.push(completed));
            assert(pair_matches(s1[s.len() as int], owner, k));
            assert(has_pair(s1, owner, k));
            let i = pair_index(s1, owner, k);
            assert(0 <= i < s1.len() && pair_matches(s1[i], owner, k));
            if i < s.len() {
                assert(pair_matches(s[i], owner, k));
                assert(has_pair(s, owner, k));
            }
            assert(i == s.len());
            assert(find_record(s1, owner, k) == Some(completed));
        },
    }
}

/// Isolation across keys: an `execute` call for one pair never changes any
/// other pair's record, whoever owns it.
pub proof fn lemma_isolation<E>(
    s: Seq<RecordModel>,
    owner: u128,
    raw: Seq<char>,
    now: u64,
    side: Result<ResponseModel, E>,
    other_owner: u128,
    other_key: Seq<char>,
)
    requires
        model_wf(s),
        match validate_model(raw) {
            Ok(k) => other_owner != owner || other_key != k,
            Err(_) => true,
        },
    ensures
        find_record(execute_model(s, owner, raw, now, side).0, other_owner, other_key)
            == find_record(s, other_owner, other_key),
{
    let s1 = execute_model(s, owner, raw, now, side).0;
    if s1 != s {
        let k = validate_model(raw)->Ok_0;
        assert(s1.len() == s.len() + 1);
        assert(!pair_matches(s1[s.len() as int], other_owner, other_key));
        if has_pair(s, other_owner, other_key) {
            let i = pair_index(s, other_owner, other_key);
            assert(pair_matches(s1[i], other_owner, other_key));
            assert(has_pair(s1, other_owner, other_key));
            let j = pair_index(s1, other_owner, other_key);
            assert(0 <= j < s1.len() && pair_matches(s1[j], other_owner, other_key));
            assert(j < s.len());
            assert(pair_matches(s[j], other_owner, other_key));
            lemma_at_most_one_record(s, other_owner, other_key);
            assert(j == i);
        } else {
            if has_pair(s1, other_owner, other_key) {
                let j = pair_index(s1, other_owner, other_key);
                assert(0 <= j < s1.len() && pair_matches(s1[j], other_owner, other_key));
                assert(j < s.len());
                assert(has_pair(s, other_owner, other_key));
            }
        }
    }
}

/// Isolation, observational form: what an `execute` call returns depends
/// only on the pair's own record — two tables that agree on the pair give
/// the same outcome.
pub proof fn lemma_outcome_depends_on_pair_alone<E>(
    s1: Seq<RecordModel>,
    s2: Seq<RecordModel>,
    owner: u128,
    raw: Seq<char>,
    now: u64,
    side: Result<ResponseModel, E>,
)
    requires
        model_wf(s1),
        model_wf(s2),
        match validate_model(raw) {
            Ok(k) => find_record(s1, owner, k) == find_record(s2, owner, k),
            Err(_) => true,
        },
    ensures
        execute_model(s1, owner, raw, now, side).1 == execute_model(s2, owner, raw, now, side).1,
{
}

} // verus!
