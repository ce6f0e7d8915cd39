use idempotency::key::{IdempotencyKey, ValidationError, MAX_KEY_LENGTH};
use idempotency::orchestrator::{execute, ExecuteError};
use idempotency::record::{CodecError, OwnerId};
use idempotency::response::{HeaderPair, SavedResponse};
use idempotency::store::{ClaimOutcome, IdempotencyStore, StoreError};

fn owner(id: u128) -> OwnerId {
    OwnerId { id }
}

fn response(status_code: u16, body: &[u8]) -> SavedResponse {
    SavedResponse {
        status_code,
        headers: vec![HeaderPair {
            name: b"content-type".to_vec(),
            value: b"text/plain".to_vec(),
        }],
        body: body.to_vec(),
    }
}

fn key(raw: &str) -> IdempotencyKey {
    IdempotencyKey::validate(raw.to_string()).unwrap()
}

#[test]
fn empty_key_rejected() {
    assert_eq!(
        IdempotencyKey::validate(String::new()).unwrap_err(),
        ValidationError::EmptyKey
    );
}

#[test]
fn whitespace_key_rejected() {
    assert_eq!(
        IdempotencyKey::validate(" \t\r\n ".to_string()).unwrap_err(),
        ValidationError::EmptyKey
    );
}

#[test]
fn overlong_key_rejected() {
    let raw = "x".repeat(MAX_KEY_LENGTH + 1);
    assert_eq!(
        IdempotencyKey::validate(raw).unwrap_err(),
        ValidationError::KeyTooLong
    );
}

#[test]
fn max_length_key_accepted() {
    let raw = "x".repeat(MAX_KEY_LENGTH);
    let key = IdempotencyKey::validate(raw.clone()).unwrap();
    assert_eq!(key.as_str(), raw.as_str());
}

#[test]
fn validation_error_reported_before_any_claim() {
    let mut store = IdempotencyStore::new();
    let result = execute(&mut store, owner(1), String::new(), 0, || {
        Ok::<SavedResponse, String>(response(200, b"ok"))
    });
    assert!(matches!(
        result,
        Err(ExecuteError::Validation(ValidationError::EmptyKey))
    ));
    assert_eq!(store.len(), 0);
}

#[test]
fn first_call_runs_side_effect_and_saves() {
    let mut store = IdempotencyStore::new();
    let mut runs = 0;
    let result = execute(&mut store, owner(1), "abc-123".to_string(), 7, || {
        runs += 1;
        Ok::<SavedResponse, String>(response(200, b"ok"))
    })
    .unwrap();
    assert_eq!(runs, 1);
    assert_eq!(result, response(200, b"ok"));
    assert_eq!(store.len(), 1);
    let record = store.lookup(owner(1), &key("abc-123")).unwrap();
    assert_eq!(record.decode_response().unwrap(), response(200, b"ok"));
}

#[test]
fn second_call_replays_without_side_effect() {
    let mut store = IdempotencyStore::new();
    let mut runs = 0;
    let first = execute(&mut store, owner(1), "abc-123".to_string(), 7, || {
        runs += 1;
        Ok::<SavedResponse, String>(response(200, b"ok"))
    })
    .unwrap();
    let second = execute(&mut store, owner(1), "abc-123".to_string(), 8, || {
        runs += 1;
        Ok::<SavedResponse, String>(response(500, b"other"))
    })
    .unwrap();
    assert_eq!(runs, 1);
    assert_eq!(first, response(200, b"ok"));
    assert_eq!(second, first);
    assert_eq!(store.len(), 1);
}

#[test]
fn replay_is_byte_exact() {
    let saved = SavedResponse {
        status_code: 207,
        headers: vec![
            HeaderPair {
                name: b"x-raw".to_vec(),
                value: vec![0, 159, 146, 150],
            },
            HeaderPair {
                name: b"x-empty".to_vec(),
                value: Vec::new(),
            },
        ],
        body: vec![1, 2, 3, 0, 255],
    };
    let mut store = IdempotencyStore::new();
    let expected = saved.clone();
    let first = execute(&mut store, owner(9), "k".to_string(), 1, move || {
        Ok::<SavedResponse, String>(saved)
    })
    .unwrap();
    let second = execute(&mut store, owner(9), "k".to_string(), 2, || {
        Err::<SavedResponse, String>("never consulted".to_string())
    })
    .unwrap();
    assert_eq!(first, expected);
    assert_eq!(second, expected);
}

#[test]
fn different_owners_same_key_are_distinct() {
    let mut store = IdempotencyStore::new();
    let k = key("k1");
    assert!(matches!(
        store.claim(owner(1), &k, 0),
        ClaimOutcome::Claimed
    ));
    assert!(matches!(
        store.claim(owner(2), &k, 0),
        ClaimOutcome::Claimed
    ));
    assert_eq!(store.len(), 2);
    // Both records are in flight at once, neither blocking the other.
    let r1 = store.lookup(owner(1), &k).unwrap();
    let r2 = store.lookup(owner(2), &k).unwrap();
    assert_eq!(
        r1.decode_response().unwrap_err(),
        CodecError::RecordNotCompleted
    );
    assert_eq!(
        r2.decode_response().unwrap_err(),
        CodecError::RecordNotCompleted
    );
}

#[test]
fn different_keys_do_not_interfere() {
    let mut store = IdempotencyStore::new();
    assert!(matches!(
        store.claim(owner(1), &key("k1"), 0),
        ClaimOutcome::Claimed
    ));
    assert!(matches!(
        store.claim(owner(1), &key("k2"), 0),
        ClaimOutcome::Claimed
    ));
    store
        .complete(owner(1), &key("k2"), &response(200, b"two"))
        .unwrap();
    // Completing k2 left k1 exactly as it was: still in flight.
    let r1 = store.lookup(owner(1), &key("k1")).unwrap();
    assert_eq!(
        r1.decode_response().unwrap_err(),
        CodecError::RecordNotCompleted
    );
    let r2 = store.lookup(owner(1), &key("k2")).unwrap();
    assert_eq!(r2.decode_response().unwrap(), response(200, b"two"));
}

#[test]
fn second_claim_creates_no_second_row() {
    let mut store = IdempotencyStore::new();
    let k = key("abc");
    assert!(matches!(store.claim(owner(1), &k, 0), ClaimOutcome::Claimed));
    assert!(matches!(
        store.claim(owner(1), &k, 1),
        ClaimOutcome::AlreadyClaimedOrCompleted(None)
    ));
    assert_eq!(store.len(), 1);
}

#[test]
fn completed_claim_replays_from_store() {
    let mut store = IdempotencyStore::new();
    let k = key("abc");
    assert!(matches!(store.claim(owner(1), &k, 0), ClaimOutcome::Claimed));
    store.complete(owner(1), &k, &response(201, b"made")).unwrap();
    match store.claim(owner(1), &k, 5) {
        ClaimOutcome::AlreadyClaimedOrCompleted(Some(saved)) => {
            assert_eq!(saved, response(201, b"made"));
        }
        other => panic!("expected a saved response, got {:?}", other),
    }
    assert_eq!(store.len(), 1);
}

#[test]
fn side_effect_failure_rolls_back_claim() {
    let mut store = IdempotencyStore::new();
    let mut runs = 0;
    let result = execute(&mut store, owner(1), "job".to_string(), 0, || {
        runs += 1;
        Err::<SavedResponse, String>("mail transport down".to_string())
    });
    match result {
        Err(ExecuteError::SideEffect(message)) => {
            assert_eq!(message, "mail transport down");
        }
        other => panic!("expected a side-effect failure, got {:?}", other),
    }
    // The failed claim left no record, so a retry attempts the work again.
    assert_eq!(store.len(), 0);
    let retried = execute(&mut store, owner(1), "job".to_string(), 1, || {
        runs += 1;
        Ok::<SavedResponse, String>(response(200, b"sent"))
    })
    .unwrap();
    assert_eq!(runs, 2);
    assert_eq!(retried, response(200, b"sent"));
}

#[test]
fn abandoned_claim_reports_pending() {
    let mut store = IdempotencyStore::new();
    let k = key("job");
    assert!(matches!(store.claim(owner(1), &k, 0), ClaimOutcome::Claimed));
    // The claimant never completed nor rolled back; a later call finds the
    // in-flight record and has nothing to replay.
    let mut runs = 0;
    let result = execute(&mut store, owner(1), "job".to_string(), 1, || {
        runs += 1;
        Ok::<SavedResponse, String>(response(200, b"ok"))
    });
    assert!(matches!(result, Err(ExecuteError::ClaimPending)));
    assert_eq!(runs, 0);
    assert_eq!(store.len(), 1);
}

#[test]
fn interleaved_race_has_a_single_winner() {
    let mut store = IdempotencyStore::new();
    let k = key("race");
    // Caller A wins the pair.
    assert!(matches!(store.claim(owner(1), &k, 0), ClaimOutcome::Claimed));
    // Caller B arrives before A completed: it loses and must wait.
    assert!(matches!(
        store.claim(owner(1), &k, 1),
        ClaimOutcome::AlreadyClaimedOrCompleted(None)
    ));
    // A completes; B's re-check replays exactly A's response.
    store.complete(owner(1), &k, &response(200, b"winner")).unwrap();
    match store.claim(owner(1), &k, 2) {
        ClaimOutcome::AlreadyClaimedOrCompleted(Some(saved)) => {
            assert_eq!(saved, response(200, b"winner"));
        }
        other => panic!("expected the winner's response, got {:?}", other),
    }
    assert_eq!(store.len(), 1);
}

#[test]
fn complete_without_claim_fails() {
    let mut store = IdempotencyStore::new();
    assert_eq!(
        store
            .complete(owner(1), &key("nope"), &response(200, b"ok"))
            .unwrap_err(),
        StoreError::NoSuchClaim
    );
}

#[test]
fn complete_twice_fails() {
    let mut store = IdempotencyStore::new();
    let k = key("abc");
    assert!(matches!(store.claim(owner(1), &k, 0), ClaimOutcome::Claimed));
    store.complete(owner(1), &k, &response(200, b"ok")).unwrap();
    assert_eq!(
        store
            .complete(owner(1), &k, &response(500, b"again"))
            .unwrap_err(),
        StoreError::NoSuchClaim
    );
    // The saved response is untouched by the failed second completion.
    let record = store.lookup(owner(1), &k).unwrap();
    assert_eq!(record.decode_response().unwrap(), response(200, b"ok"));
}

#[test]
fn rollback_never_removes_a_completed_record() {
    let mut store = IdempotencyStore::new();
    let k = key("abc");
    assert!(matches!(store.claim(owner(1), &k, 0), ClaimOutcome::Claimed));
    store.complete(owner(1), &k, &response(200, b"ok")).unwrap();
    store.rollback_claim(owner(1), &k);
    assert_eq!(store.len(), 1);
    let record = store.lookup(owner(1), &k).unwrap();
    assert_eq!(record.decode_response().unwrap(), response(200, b"ok"));
}

#[test]
fn codec_round_trip() {
    let mut store = IdempotencyStore::new();
    let k = key("abc");
    assert!(matches!(store.claim(owner(1), &k, 3), ClaimOutcome::Claimed));
    let in_flight = store.lookup(owner(1), &k).unwrap();
    let completed = in_flight.with_response(&response(204, b""));
    assert_eq!(completed.decode_response().unwrap(), response(204, b""));
}
