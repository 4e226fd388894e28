//! A flexible, state-aware guard mechanism for grouped request handlers.
//!
//! A guard is an asynchronous predicate over data extracted from an incoming
//! request (shared application state, parsed request parts). Attached to a
//! group of routes, it decides per request whether the request may proceed to
//! the wrapped handlers or is rejected with an error response.

pub use errors::GuardError;
pub use errors::GuardResult;

pub use guard::EvalStep;
pub use guard::evaluation_outcome;
pub use guard::resolve_extraction;
pub use guard::resolve_guard_call;

pub use middleware::GateAction;
pub use middleware::GateEvent;
pub use middleware::GateState;
pub use middleware::StateGuardMiddleware;
pub use middleware::decide_forward;
pub use middleware::gate_expects;
pub use middleware::gate_outcome;
pub use middleware::gate_step;
pub use middleware::gate_transition;

pub use laws::count_extraction_failures;
pub use laws::count_forwards;
pub use laws::count_invocations;
pub use laws::count_starts;
pub use laws::gate_evaluation;
pub use laws::is_admit;
pub use laws::is_extraction_failed;
pub use laws::is_guard_rejected;
pub use laws::lemma_exactly_once_evaluation;
pub use laws::lemma_extraction_failure_masks_guard_decision;
pub use laws::lemma_extraction_failure_short_circuit;
pub use laws::lemma_forward_transparency;
pub use laws::lemma_nesting_uniformity;
pub use laws::lemma_outcome_mutually_exclusive;
pub use laws::run_state;
pub use laws::valid_run;

pub use transform::StateGuard;

mod errors;
mod guard;
mod laws;
mod middleware;
mod transform;
