//! The unified rejection type: one tagged union over the two failure sources
//! of a guard evaluation, so that a single error channel leaves the middleware.

use vstd::prelude::*;

verus! {

/// Declaration of `actix_web::Error`, the framework's general-purpose error.
/// Argument extraction reports its failures as a value of this type. The middleware
/// never inspects or transforms such a value: it only carries it through to
/// the framework's own response rendering.
#[verifier::external_type_specification]
#[verifier::external_body]
pub struct ExActixWebError(actix_web::Error);

/// The unified rejection produced by one guard evaluation.
///
/// `FromRequest` means the request did not carry what the guard's declared
/// arguments require (malformed or missing input), so the guard's own logic
/// never ran. `GuardCall` means extraction succeeded and the guard evaluated
/// the request but declined it for a domain reason.
pub enum GuardError<GuardCallErr> {
    FromRequest(actix_web::Error),
    GuardCall(GuardCallErr),
}

/// Result of one guard evaluation: admit, or exactly one rejection kind.
pub type GuardResult<GuardCallErr> = Result<(), GuardError<GuardCallErr>>;

/// Relies on `actix_web::Error::as_response_error` (hands out the underlying
/// renderer of this error, unchanged) and on `ResponseError::status_code` of
/// that renderer, converted to its numeric value by
/// `http::StatusCode::as_u16`: yields the status the framework itself would
/// render for this extraction failure. Every constructed status code lies in
/// 100..=999.
#[verifier::external_body]
fn actix_error_status(err: &actix_web::Error) -> (r: u16)
    ensures
        100 <= r < 1000,
{
    err.as_response_error().status_code().as_u16()
}

impl<GuardCallErr> GuardError<GuardCallErr> {
    /// The HTTP status the framework's own renderer assigns to an extraction
    /// failure. A domain rejection yields `None` here: its status comes from
    /// the domain error's own renderer, which this type does not constrain.
    pub fn extraction_status_code(&self) -> (r: Option<u16>)
        ensures
            (r is Some) <==> (self is FromRequest),
            r matches Some(code) ==> 100 <= code < 1000,
    {
        match self {
            GuardError::FromRequest(err) => Some(actix_error_status(err)),
            GuardError::GuardCall(_) => None,
        }
    }
}

} // verus!
