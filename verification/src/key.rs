//! Validation of client-supplied idempotency keys.

use vstd::prelude::*;
use vstd::string::StrSliceExecFns;
use vstd::string::StringSliceAdditionalSpecFns;

verus! {

/// Largest accepted key length, in characters.
pub const MAX_KEY_LENGTH: usize = 50;

/// Why a raw idempotency key was rejected.
#[derive(Clone, Copy, Debug, PartialEq, Eq, Structural)]
pub enum ValidationError {
    /// The key is empty once surrounding whitespace is discarded.
    EmptyKey,
    /// The key is longer than [`MAX_KEY_LENGTH`] characters.
    KeyTooLong,
}

/// The whitespace characters the validator discounts at either end of a key.
pub open spec fn is_key_whitespace(c: char) -> bool {
    c == ' ' || c == '\t' || c == '\n' || c == '\r'
}

/// A raw key is blank when trimming whitespace would leave nothing,
/// that is, when every character is whitespace.
pub open spec fn is_blank(s: Seq<char>) -> bool {
    forall|i: int| 0 <= i < s.len() ==> is_key_whitespace(s[i])
}

/// What the validator decides for a raw key: blank keys are empty,
/// over-long keys are rejected, anything else is accepted unchanged.
pub open spec fn validate_model(raw: Seq<char>) -> Result<Seq<char>, ValidationError> {
    if is_blank(raw) {
        Err(ValidationError::EmptyKey)
    } else if raw.len() > MAX_KEY_LENGTH {
        Err(ValidationError::KeyTooLong)
    } else {
        Ok(raw)
    }
}

/// A validated idempotency key: non-blank and at most [`MAX_KEY_LENGTH`]
/// characters. Immutable once constructed.
#[derive(Debug)]
pub struct IdempotencyKey {
    value: String,
}

impl View for IdempotencyKey {
    type V = Seq<char>;

    closed spec fn view(&self) -> Seq<char> {
        self.value@
    }
}

impl IdempotencyKey {
    /// The wrapped string is one the validator accepts.
    pub open spec fn wf(&self) -> bool {
        validate_model(self@) == Ok::<Seq<char>, ValidationError>(self@)
    }

    /// Validates a raw client-supplied string, wrapping it unchanged on
    /// success and reporting exactly why it was rejected otherwise.
    pub fn validate(raw: String) -> (result: Result<IdempotencyKey, ValidationError>)
        ensures
            match result {
                Ok(key) => key@ == raw@ && key.wf() && validate_model(raw@) == Ok::<
                    Seq<char>,
                    ValidationError,
                >(raw@),
                Err(e) => validate_model(raw@) == Err::<Seq<char>, ValidationError>(e),
            },
    {
        let n = raw.as_str().unicode_len();
        let mut i: usize = 0;
        let mut blank: bool = true;
        while i < n
            invariant
                n == raw@.len(),
                0 <= i <= n,
                blank <==> (forall|j: int| 0 <= j < i ==> is_key_whitespace(raw@[j])),
            decreases n - i,
        {
            if !is_whitespace_char(raw.as_str().get_char(i)) {
                blank = false;
            }
            i += 1;
        }
        if blank {
            return Err(ValidationError::EmptyKey);
        }
        if n > MAX_KEY_LENGTH {
            return Err(ValidationError::KeyTooLong);
        }
        Ok(IdempotencyKey { value: raw })
    }

    /// The key as a display string.
    pub fn as_str(&self) -> (s: &str)
        ensures
            s@ == self@,
    {
        self.value.as_str()
    }

    /// Whether two keys hold the same characters.
    pub fn same_as(&self, other: &IdempotencyKey) -> (r: bool)
        ensures
            r == (self@ == other@),
    {
        self.value == other.value
    }

    /// The key as the bytes under which the store files it.
    pub fn as_storage_bytes(&self) -> (b: Vec<u8>)
        ensures
            b@ == vstd::utf8::encode_utf8(self@),
    {
        self.value.as_str().as_bytes_vec()
    }
}

impl Clone for IdempotencyKey {
    /// A clone wraps the same characters.
    fn clone(&self) -> (r: Self)
        ensures
            r@ == self@,
    {
        IdempotencyKey { value: self.value.clone() }
    }
}

fn is_whitespace_char(c: char) -> (r: bool)
    ensures
        r == is_key_whitespace(c),
{
    c == ' ' || c == '\t' || c == '\n' || c == '\r'
}

} // verus!
