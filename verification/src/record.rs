//! One durable row of the idempotency store, and the codec that moves a
//! saved response in and out of the row's three nullable response columns.

use vstd::prelude::*;

use crate::key::{validate_model, IdempotencyKey, ValidationError};
use crate::response::{clone_header_list, HeaderPair, ResponseModel, SavedResponse};

verus! {

/// Opaque identity of the caller that claimed a key. The guard only ever
/// compares two of these for equality.
#[derive(Clone, Copy, Debug, PartialEq, Eq, Structural)]
pub struct OwnerId {
    pub id: u128,
}

/// Raised when a response is decoded out of a row that is still in flight.
#[derive(Clone, Copy, Debug, PartialEq, Eq, Structural)]
pub enum CodecError {
    RecordNotCompleted,
}

/// Mathematical model of one row: the claim's pair, when it was created,
/// and the saved response once the claim completed.
#[verifier::ext_equal]
pub struct RecordModel {
    pub owner: u128,
    pub key: Seq<char>,
    pub created_at: u64,
    pub response: Option<ResponseModel>,
}

impl RecordModel {
    /// The row's key is one the validator accepts.
    pub open spec fn wf(&self) -> bool {
        validate_model(self.key) == Ok::<Seq<char>, ValidationError>(self.key)
    }
}

/// One row of the store. The three response columns are all null while the
/// claim is in flight and all set once it has completed; no other shape is
/// ever observable.
#[derive(Debug)]
pub struct IdempotencyRecord {
    pub owner_id: OwnerId,
    pub idempotency_key: IdempotencyKey,
    pub response_status_code: Option<u16>,
    pub response_headers: Option<Vec<HeaderPair>>,
    pub response_body: Option<Vec<u8>>,
    pub created_at: u64,
}

impl IdempotencyRecord {
    /// All-or-nothing: the response columns are either all null or all set,
    /// and the stored key is a validated one.
    pub open spec fn wf(&self) -> bool {
        &&& (self.response_status_code is Some <==> self.response_headers is Some)
        &&& (self.response_status_code is Some <==> self.response_body is Some)
        &&& self.idempotency_key.wf()
    }

    /// The claim has been completed: its response columns are set.
    pub open spec fn is_completed(&self) -> bool {
        self.response_status_code is Some
    }

    /// A fresh in-flight row for a newly claimed pair.
    pub fn new_in_flight(owner_id: OwnerId, key: IdempotencyKey, created_at: u64) -> (r: Self)
        requires
            key.wf(),
        ensures
            r.wf(),
            r@ == (RecordModel {
                owner: owner_id.id,
                key: key@,
                created_at,
                response: None,
            }),
    {
        IdempotencyRecord {
            owner_id,
            idempotency_key: key,
            response_status_code: None,
            response_headers: None,
            response_body: None,
            created_at,
        }
    }

    /// Codec, encoding direction: the same row with all three response
    /// columns populated from the given response, in one step.
    pub fn with_response(&self, response: &SavedResponse) -> (r: Self)
        requires
            self.wf(),
        ensures
            r.wf(),
            r@ == (RecordModel { response: Some(response@), ..self@ }),
    {
        let r = IdempotencyRecord {
            owner_id: self.owner_id,
            idempotency_key: self.idempotency_key.clone(),
            response_status_code: Some(response.status_code),
            response_headers: Some(clone_header_list(&response.headers)),
            response_body: Some(vstd::slice::slice_to_vec(response.body.as_slice())),
            created_at: self.created_at,
        };
        proof {
            assert(r@ =~= (RecordModel { response: Some(response@), ..self@ }));
        }
        r
    }

    /// Codec, decoding direction: the saved response held in the row's
    /// columns, byte for byte. Decoding a row that is still in flight is a
    /// caller bug and fails with [`CodecError::RecordNotCompleted`].
    pub fn decode_response(&self) -> (result: Result<SavedResponse, CodecError>)
        requires
            self.wf(),
        ensures
            match result {
                Ok(resp) => self@.response == Some(resp@),
                Err(e) => e == CodecError::RecordNotCompleted && self@.response is None,
            },
    {
        match (&self.response_status_code, &self.response_headers, &self.response_body) {
            (Some(status), Some(headers), Some(body)) => {
                let resp = SavedResponse {
                    status_code: *status,
                    headers: clone_header_list(headers),
                    body: vstd::slice::slice_to_vec(body.as_slice()),
                };
                proof {
                    assert(self@.response == Some(resp@));
                }
                Ok(resp)
            },
            _ => Err(CodecError::RecordNotCompleted),
        }
    }
}

impl View for IdempotencyRecord {
    type V = RecordModel;

    open spec fn view(&self) -> RecordModel {
        RecordModel {
            owner: self.owner_id.id,
            key: self.idempotency_key@,
            created_at: self.created_at,
            response: match (self.response_status_code, self.response_headers, self.response_body) {
                (Some(status), Some(headers), Some(body)) => Some(
                    ResponseModel {
                        status,
                        headers: headers@.map_values(|h: HeaderPair| h@),
                        body: body@,
                    },
                ),
                _ => None,
            },
        }
    }
}

impl Clone for IdempotencyRecord {
    /// A clone is model-equal to the original row.
    fn clone(&self) -> (r: Self)
        ensures
            r@ == self@,
            r.wf() == self.wf(),
    {
        let r = IdempotencyRecord {
            owner_id: self.owner_id,
            idempotency_key: self.idempotency_key.clone(),
            response_status_code: self.response_status_code,
            response_headers: match &self.response_headers {
                Some(hs) => Some(clone_header_list(hs)),
                None => None,
            },
            response_body: match &self.response_body {
                Some(b) => Some(vstd::slice::slice_to_vec(b.as_slice())),
                None => None,
            },
            created_at: self.created_at,
        };
        proof {
            assert(r@ =~= self@);
        }
        r
    }
}

} // verus!
