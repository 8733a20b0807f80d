//! The service's failures and how each is answered.

use vstd::prelude::*;

verus! {

/// `anyhow::Error`, carried opaque inside `AppError::Internal`.
#[verifier::external_type_specification]
#[verifier::external_body]
pub struct ExAnyhowError(anyhow::Error);

/// A failed request.
#[derive(Debug)]
pub enum AppError {
    /// The input breaks a rule; the message says which.
    BadRequest(String),
    /// The link does not lead to a live proposal.
    NotFound,
    /// A decision was already recorded.
    Conflict,
    /// Storage or another part of the service failed.
    Internal(anyhow::Error),
}

/// The HTTP status with which each failure is answered.
pub open spec fn status_of(e: AppError) -> u16 {
    match e {
        AppError::BadRequest(_) => 400,
        AppError::NotFound => 404,
        AppError::Conflict => 409,
        AppError::Internal(_) => 500,
    }
}

/// The message shown to the caller for each failure; internal details
/// never reach it.
pub open spec fn message_of(e: AppError) -> Seq<char> {
    match e {
        AppError::BadRequest(m) => m@,
        AppError::NotFound => "The proposal link was not found or has been deleted."@,
        AppError::Conflict => "A decision has already been recorded for this proposal."@,
        AppError::Internal(_) => "The service could not complete that request. Please try again."@,
    }
}

impl AppError {
    /// The HTTP status code of the answer.
    pub fn status_code(&self) -> (s: u16)
        ensures
            s == status_of(*self),
    {
        match self {
            AppError::BadRequest(_) => 400,
            AppError::NotFound => 404,
            AppError::Conflict => 409,
            AppError::Internal(_) => 500,
        }
    }

    /// The `error` text of the answer's JSON body.
    pub fn public_message(&self) -> (m: &str)
        ensures
            m@ == message_of(*self),
    {
        match self {
            AppError::BadRequest(message) => message.as_str(),
            AppError::NotFound => "The proposal link was not found or has been deleted.",
            AppError::Conflict => "A decision has already been recorded for this proposal.",
            AppError::Internal(_) => "The service could not complete that request. Please try again.",
        }
    }
}

} // verus!
