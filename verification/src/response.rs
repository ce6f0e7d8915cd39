//! The in-memory form of a saved HTTP-like response: status code, header
//! list and body. Header values are kept as raw bytes so that replaying a
//! saved response is byte-exact even when a header value is not valid text.

use vstd::prelude::*;

verus! {

/// Mathematical model of one header: name and value as byte sequences.
#[verifier::ext_equal]
pub struct HeaderModel {
    pub name: Seq<u8>,
    pub value: Seq<u8>,
}

/// Mathematical model of a saved response.
#[verifier::ext_equal]
pub struct ResponseModel {
    pub status: u16,
    pub headers: Seq<HeaderModel>,
    pub body: Seq<u8>,
}

/// One response header, name and value as raw bytes.
#[derive(Debug, PartialEq, Eq)]
pub struct HeaderPair {
    pub name: Vec<u8>,
    pub value: Vec<u8>,
}

impl View for HeaderPair {
    type V = HeaderModel;

    open spec fn view(&self) -> HeaderModel {
        HeaderModel { name: self.name@, value: self.value@ }
    }
}

/// A response as the guard returns it: to the first caller freshly computed,
/// to every later caller replayed byte for byte from the store.
#[derive(Debug, PartialEq, Eq)]
pub struct SavedResponse {
    pub status_code: u16,
    pub headers: Vec<HeaderPair>,
    pub body: Vec<u8>,
}

impl View for SavedResponse {
    type V = ResponseModel;

    open spec fn view(&self) -> ResponseModel {
        ResponseModel {
            status: self.status_code,
            headers: self.headers@.map_values(|h: HeaderPair| h@),
            body: self.body@,
        }
    }
}

impl Clone for HeaderPair {
    /// A clone carries the same name and value bytes.
    fn clone(&self) -> (r: Self)
        ensures
            r@ == self@,
    {
        HeaderPair {
            name: vstd::slice::slice_to_vec(self.name.as_slice()),
            value: vstd::slice::slice_to_vec(self.value.as_slice()),
        }
    }
}

impl Clone for SavedResponse {
    /// A clone is model-equal to the original: same status, headers and body.
    fn clone(&self) -> (r: Self)
        ensures
            r@ == self@,
    {
        SavedResponse {
            status_code: self.status_code,
            headers: clone_header_list(&self.headers),
            body: vstd::slice::slice_to_vec(self.body.as_slice()),
        }
    }
}

/// Copies a header list, preserving every name and value byte for byte.
pub(crate) fn clone_header_list(hs: &Vec<HeaderPair>) -> (r: Vec<HeaderPair>)
    ensures
        r@.map_values(|h: HeaderPair| h@) == hs@.map_values(|h: HeaderPair| h@),
{
    let mut headers: Vec<HeaderPair> = Vec::new();
    let mut i: usize = 0;
    while i < hs.len()
        invariant
            0 <= i <= hs.len(),
            headers@.len() == i,
            forall|j: int| 0 <= j < i ==> headers@[j]@ == hs@[j]@,
        decreases hs.len() - i,
    {
        headers.push(hs[i].clone());
        i += 1;
    }
    proof {
        assert(headers@.map_values(|h: HeaderPair| h@) =~= hs@.map_values(|h: HeaderPair| h@));
    }
    headers
}

} // verus!
