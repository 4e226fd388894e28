//! The admission middleware: enforces one guard in front of one wrapped
//! chain segment.
//!
//! A middleware instance holds shared, immutable-after-construction handles
//! to its guard and to the wrapped segment, so many concurrent in-flight
//! requests can use it at once. Per request it walks a small protocol: it
//! starts argument extraction, invokes the guard on the extracted arguments,
//! and then either forwards the request to the wrapped segment or
//! short-circuits with the rejection. The asynchronous steps are driven by
//! the surrounding chain; the decision between any two steps is `gate_step`.

use std::rc::Rc;

use vstd::prelude::*;

use crate::errors::GuardError;
use crate::errors::GuardResult;

verus! {

/// Relies on `std::rc::Rc::clone`: the clone is another pointer to the same
/// allocation, so it carries the same value.
#[verifier::external_body]
pub(crate) fn share_handle<T>(v: &Rc<T>) -> (r: Rc<T>)
    ensures
        r == *v,
{
    Rc::clone(v)
}

/// One middleware: enforces one guard in front of one wrapped chain segment.
/// Both handles are fixed at construction and never mutated afterwards.
pub struct StateGuardMiddleware<Service, Guard> {
    service: Rc<Service>,
    guard: Rc<Guard>,
}

impl<Service, Guard> StateGuardMiddleware<Service, Guard> {
    /// The guard this middleware evaluates on every request routed to it.
    pub closed spec fn guard(self) -> Guard {
        *self.guard
    }

    /// The wrapped chain segment this middleware forwards admitted requests to.
    pub closed spec fn service(self) -> Service {
        *self.service
    }

    /// Builds a middleware around `service`, sharing the given guard handle.
    pub(crate) fn new(guard: Rc<Guard>, service: Service) -> (middleware: Self)
        ensures
            middleware.guard() == *guard,
            middleware.service() == service,
    {
        StateGuardMiddleware { guard, service: Rc::new(service) }
    }

    /// A borrow of the middleware's guard, for invoking it on extracted arguments.
    pub fn guard_ref(&self) -> (g: &Guard)
        ensures
            *g == self.guard(),
    {
        &*self.guard
    }

    /// A borrow of the wrapped segment, for forwarding an admitted request.
    pub fn service_ref(&self) -> (s: &Service)
        ensures
            *s == self.service(),
    {
        &*self.service
    }
}

/// The per-request processing states of a middleware. `Forwarded` and `Rejected`
/// are terminal: no further event of that request reaches the middleware.
#[derive(Clone, Copy, PartialEq, Eq, Structural, Debug)]
pub enum GateState {
    /// The chain dispatched the request to this middleware.
    Received,
    /// The framework's argument extraction for the guard's declared
    /// parameter types is running.
    Extracting,
    /// The guard's own logic is running on the extracted arguments.
    Invoking,
    /// The guard admitted; the wrapped segment now owns the request.
    Forwarded,
    /// The evaluation rejected the request; the middleware responds itself.
    Rejected,
}

/// What the surrounding chain reports to the middleware: a step of the evaluation
/// has finished with this outcome.
pub enum GateEvent<Args, GuardCallErr> {
    /// The request was routed into the guarded group.
    Dispatched,
    /// Argument extraction yielded these arguments.
    ExtractionSucceeded(Args),
    /// Argument extraction failed with the framework's error.
    ExtractionFailed(actix_web::Error),
    /// The guard's own logic admitted the request.
    GuardAdmitted,
    /// The guard's own logic declined the request with this domain error.
    GuardRejected(GuardCallErr),
}

/// What the middleware asks the surrounding chain to do next.
pub enum GateAction<Args, GuardCallErr> {
    /// Run the framework's argument extraction against the request.
    StartExtraction,
    /// Invoke the guard's own logic on these extracted arguments.
    InvokeGuard(Args),
    /// Hand the request to the wrapped chain segment, exactly once, and
    /// return that segment's response unmodified.
    ForwardRequest,
    /// Do not invoke the wrapped segment; respond with this rejection.
    RespondWith(GuardError<GuardCallErr>),
}

/// Which events the protocol allows in which state. Terminal states allow
/// none.
pub open spec fn gate_expects<Args, GuardCallErr>(
    s: GateState,
    e: GateEvent<Args, GuardCallErr>,
) -> bool {
    match s {
        GateState::Received => e is Dispatched,
        GateState::Extracting => e is ExtractionSucceeded || e is ExtractionFailed,
        GateState::Invoking => e is GuardAdmitted || e is GuardRejected,
        GateState::Forwarded => false,
        GateState::Rejected => false,
    }
}

/// The middleware's transition function: the next state and the action the chain
/// must perform, for an event the current state allows.
pub open spec fn gate_transition<Args, GuardCallErr>(
    s: GateState,
    e: GateEvent<Args, GuardCallErr>,
) -> (GateState, GateAction<Args, GuardCallErr>)
    recommends
        gate_expects(s, e),
{
    match e {
        GateEvent::Dispatched => (GateState::Extracting, GateAction::StartExtraction),
        GateEvent::ExtractionSucceeded(args) => (GateState::Invoking, GateAction::InvokeGuard(args)),
        GateEvent::ExtractionFailed(err) => (
            GateState::Rejected,
            GateAction::RespondWith(GuardError::FromRequest(err)),
        ),
        GateEvent::GuardAdmitted => (GateState::Forwarded, GateAction::ForwardRequest),
        GateEvent::GuardRejected(err) => (
            GateState::Rejected,
            GateAction::RespondWith(GuardError::GuardCall(err)),
        ),
    }
}

/// Advances the middleware's per-request protocol by one event.
pub fn gate_step<Args, GuardCallErr>(
    s: GateState,
    e: GateEvent<Args, GuardCallErr>,
) -> (r: (GateState, GateAction<Args, GuardCallErr>))
    requires
        gate_expects(s, e),
    ensures
        r == gate_transition(s, e),
{
    match e {
        GateEvent::Dispatched => (GateState::Extracting, GateAction::StartExtraction),
        GateEvent::ExtractionSucceeded(args) => (GateState::Invoking, GateAction::InvokeGuard(args)),
        GateEvent::ExtractionFailed(err) => (
            GateState::Rejected,
            GateAction::RespondWith(GuardError::FromRequest(err)),
        ),
        GateEvent::GuardAdmitted => (GateState::Forwarded, GateAction::ForwardRequest),
        GateEvent::GuardRejected(err) => (
            GateState::Rejected,
            GateAction::RespondWith(GuardError::GuardCall(err)),
        ),
    }
}

/// Whether the wrapped chain segment may be invoked for this evaluation
/// outcome: exactly when the guard admitted.
pub fn decide_forward<GuardCallErr>(evaluation: &GuardResult<GuardCallErr>) -> (forward: bool)
    ensures
        forward <==> (evaluation is Ok),
{
    match evaluation {
        Ok(_) => true,
        Err(_) => false,
    }
}

/// The response the caller observes, as a function of the evaluation outcome
/// and of the response the wrapped segment produces when invoked: on admit,
/// exactly the segment's response; on rejection, exactly the rejection, with
/// the segment never invoked.
pub open spec fn gate_outcome<Resp, GuardCallErr>(
    evaluation: GuardResult<GuardCallErr>,
    segment_response: Resp,
) -> Result<Resp, GuardError<GuardCallErr>> {
    match evaluation {
        Ok(_) => Ok(segment_response),
        Err(err) => Err(err),
    }
}

} // verus!
