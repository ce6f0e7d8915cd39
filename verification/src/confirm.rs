//! Confirming a pending subscription: the decision taken once the
//! subscription token has been looked up.

use vstd::prelude::*;

verus! {

/// The query parameters of a confirmation request.
#[derive(Debug)]
pub struct Parameters {
    pub subscription_token: String,
}

/// Failure while confirming a subscription, carrying what went wrong as a
/// structured message.
#[derive(Debug)]
pub enum SubscriptionConfirmError {
    UnexpectedError(String),
}

impl SubscriptionConfirmError {
    /// The HTTP status such a failure is reported with.
    pub fn status_code(&self) -> (status: u16)
        ensures
            status == 500,
    {
        match self {
            SubscriptionConfirmError::UnexpectedError(_) => 500,
        }
    }

    /// The failure's message.
    pub fn message(&self) -> (m: &str)
        ensures
            match self {
                SubscriptionConfirmError::UnexpectedError(cause) => m@ == cause@,
            },
    {
        match self {
            SubscriptionConfirmError::UnexpectedError(cause) => cause.as_str(),
        }
    }
}

/// What to do with a confirmation request once the token was looked up.
#[derive(Clone, Copy, Debug, PartialEq, Eq, Structural)]
pub enum ConfirmAction {
    /// The token matched no subscriber: answer 401 without touching
    /// anything.
    RejectUnauthorized,
    /// The token matched this subscriber: mark the subscription confirmed
    /// and answer 200.
    MarkConfirmed(u128),
}

/// Decides a confirmation request from the token lookup's result: an
/// unknown token is rejected, a known one confirms exactly the subscriber
/// it maps to.
pub fn confirm_decision(subscriber_id: Option<u128>) -> (action: ConfirmAction)
    ensures
        match subscriber_id {
            None => action == ConfirmAction::RejectUnauthorized,
            Some(id) => action == ConfirmAction::MarkConfirmed(id),
        },
{
    match subscriber_id {
        None => ConfirmAction::RejectUnauthorized,
        Some(id) => ConfirmAction::MarkConfirmed(id),
    }
}

/// The HTTP status each confirmation decision answers with.
pub fn confirm_status(action: &ConfirmAction) -> (status: u16)
    ensures
        status == (match action {
            ConfirmAction::RejectUnauthorized => 401u16,
            ConfirmAction::MarkConfirmed(_) => 200u16,
        }),
{
    match action {
        ConfirmAction::RejectUnauthorized => 401,
        ConfirmAction::MarkConfirmed(_) => 200,
    }
}

} // verus!
