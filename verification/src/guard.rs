//! The guard evaluation protocol: typed argument extraction, then invocation
//! of the guard's own logic, folded into one unified result.
//!
//! The asynchronous steps themselves (awaiting request-body bytes during
//! extraction, the guard body's own asynchronous work) are driven by the
//! surrounding chain; the decisions between those steps live here. A complete
//! evaluation yields exactly one of: admit, extraction failure, or domain
//! rejection.

use vstd::prelude::*;

use crate::errors::GuardError;
use crate::errors::GuardResult;

verus! {

/// What the middleware must do next once the framework's argument extraction for
/// the guard's declared parameter types has finished.
pub enum EvalStep<Args, GuardCallErr> {
    /// Extraction succeeded: invoke the guard's own logic on these arguments.
    InvokeGuard(Args),
    /// Extraction failed: the evaluation is over, the guard's own logic must
    /// not run, and this is the rejection to respond with.
    ShortCircuit(GuardError<GuardCallErr>),
}

/// Decides how a finished extraction continues the evaluation: success hands
/// the extracted arguments, unchanged, to the guard invocation; failure
/// short-circuits to a `FromRequest` rejection carrying the framework's
/// error, unchanged.
pub fn resolve_extraction<Args, GuardCallErr>(
    extracted: Result<Args, actix_web::Error>,
) -> (step: EvalStep<Args, GuardCallErr>)
    ensures
        extracted matches Ok(args) ==> step == EvalStep::<Args, GuardCallErr>::InvokeGuard(args),
        extracted matches Err(err) ==> step == EvalStep::<Args, GuardCallErr>::ShortCircuit(
            GuardError::FromRequest(err),
        ),
{
    match extracted {
        Ok(args) => EvalStep::InvokeGuard(args),
        Err(err) => EvalStep::ShortCircuit(GuardError::FromRequest(err)),
    }
}

/// Decides how the guard body's own decision ends the evaluation: admission
/// passes through, and a domain rejection becomes a `GuardCall` rejection
/// carrying the guard's error, unchanged.
pub fn resolve_guard_call<GuardCallErr>(
    decision: Result<(), GuardCallErr>,
) -> (r: GuardResult<GuardCallErr>)
    ensures
        decision matches Ok(u) ==> r == GuardResult::<GuardCallErr>::Ok(()),
        decision matches Err(err) ==> r == GuardResult::<GuardCallErr>::Err(
            GuardError::GuardCall(err),
        ),
{
    match decision {
        Ok(()) => Ok(()),
        Err(err) => Err(GuardError::GuardCall(err)),
    }
}

/// What one complete guard evaluation yields, as a function of the extraction
/// outcome and of the decision the guard body would take on the extracted
/// arguments. The guard body's decision enters the result only when
/// extraction succeeded.
pub open spec fn evaluation_outcome<Args, GuardCallErr>(
    extracted: Result<Args, actix_web::Error>,
    decision: Result<(), GuardCallErr>,
) -> GuardResult<GuardCallErr> {
    match extracted {
        Ok(_) => match decision {
            Ok(_) => Ok(()),
            Err(err) => Err(GuardError::GuardCall(err)),
        },
        Err(err) => Err(GuardError::FromRequest(err)),
    }
}

} // verus!
