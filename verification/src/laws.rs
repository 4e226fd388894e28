//! What the middleware protocol guarantees over whole per-request runs.
//!
//! A run is the sequence of events the surrounding chain reports to one middleware
//! for one request. The proof functions here state the admission guarantees:
//! the guard is evaluated exactly once per dispatched request, the wrapped
//! segment runs exactly when the guard admits, an extraction failure means
//! the guard's own logic is never asked, and the rejection kinds exclude one
//! another.

use vstd::prelude::*;

use crate::errors::GuardError;
use crate::errors::GuardResult;
use crate::guard::evaluation_outcome;
use crate::middleware::GateEvent;
use crate::middleware::GateState;
use crate::middleware::StateGuardMiddleware;
use crate::middleware::gate_expects;
use crate::middleware::gate_outcome;
use crate::middleware::gate_transition;

verus! {

/// The state a middleware reaches after processing `events` from `s`.
pub open spec fn run_state<Args, GuardCallErr>(
    s: GateState,
    events: Seq<GateEvent<Args, GuardCallErr>>,
) -> GateState
    decreases events.len(),
{
    if events.len() == 0 {
        s
    } else {
        run_state(gate_transition(s, events[0]).0, events.drop_first())
    }
}

/// Whether every event of `events` is allowed in the state reached before it.
pub open spec fn valid_run<Args, GuardCallErr>(
    s: GateState,
    events: Seq<GateEvent<Args, GuardCallErr>>,
) -> bool
    decreases events.len(),
{
    events.len() == 0 || (gate_expects(s, events[0]) && valid_run(
        gate_transition(s, events[0]).0,
        events.drop_first(),
    ))
}

/// How many times the run asks the chain to start argument extraction.
pub open spec fn count_starts<Args, GuardCallErr>(
    s: GateState,
    events: Seq<GateEvent<Args, GuardCallErr>>,
) -> nat
    decreases events.len(),
{
    if events.len() == 0 {
        0
    } else {
        (if gate_transition(s, events[0]).1 is StartExtraction {
            1nat
        } else {
            0nat
        }) + count_starts(gate_transition(s, events[0]).0, events.drop_first())
    }
}

/// How many times the run asks the chain to invoke the guard's own logic.
pub open spec fn count_invocations<Args, GuardCallErr>(
    s: GateState,
    events: Seq<GateEvent<Args, GuardCallErr>>,
) -> nat
    decreases events.len(),
{
    if events.len() == 0 {
        0
    } else {
        (if gate_transition(s, events[0]).1 is InvokeGuard {
            1nat
        } else {
            0nat
        }) + count_invocations(gate_transition(s, events[0]).0, events.drop_first())
    }
}

/// How many times the run hands the request to the wrapped chain segment.
pub open spec fn count_forwards<Args, GuardCallErr>(
    s: GateState,
    events: Seq<GateEvent<Args, GuardCallErr>>,
) -> nat
    decreases events.len(),
{
    if events.len() == 0 {
        0
    } else {
        (if gate_transition(s, events[0]).1 is ForwardRequest {
            1nat
        } else {
            0nat
        }) + count_forwards(gate_transition(s, events[0]).0, events.drop_first())
    }
}

/// How many extraction failures the chain reported in `events`.
pub open spec fn count_extraction_failures<Args, GuardCallErr>(
    events: Seq<GateEvent<Args, GuardCallErr>>,
) -> nat
    decreases events.len(),
{
    if events.len() == 0 {
        0
    } else {
        (if events[0] is ExtractionFailed {
            1nat
        } else {
            0nat
        }) + count_extraction_failures(events.drop_first())
    }
}

/// A middleware that reached a terminal state accepts no further event of that
/// request: a valid run from `Forwarded` or `Rejected` is empty.
pub proof fn lemma_terminal_run<Args, GuardCallErr>(
    s: GateState,
    events: Seq<GateEvent<Args, GuardCallErr>>,
)
    requires
        valid_run(s, events),
        s is Forwarded || s is Rejected,
    ensures
        events.len() == 0,
{
}

/// A valid run from `Invoking` asks for no further extraction and no further
/// guard invocation, reports no extraction failure, and forwards at most
/// once: exactly once when it ends in `Forwarded`.
pub proof fn lemma_run_from_invoking<Args, GuardCallErr>(
    events: Seq<GateEvent<Args, GuardCallErr>>,
)
    requires
        valid_run(GateState::Invoking, events),
    ensures
        count_starts(GateState::Invoking, events) == 0,
        count_invocations(GateState::Invoking, events) == 0,
        count_extraction_failures(events) == 0,
        count_forwards(GateState::Invoking, events) <= 1,
        run_state(GateState::Invoking, events) is Forwarded ==> count_forwards(
            GateState::Invoking,
            events,
        ) == 1,
        run_state(GateState::Invoking, events) is Rejected ==> count_forwards(
            GateState::Invoking,
            events,
        ) == 0,
{
    if events.len() > 0 {
        let e0 = events[0];
        let rest = events.drop_first();
        let next = gate_transition::<Args, GuardCallErr>(GateState::Invoking, e0).0;
        assert(gate_expects(GateState::Invoking, e0));
        assert(valid_run(next, rest));
        lemma_terminal_run(next, rest);
        assert(count_starts(next, rest) == 0);
        assert(count_invocations(next, rest) == 0);
        assert(count_forwards(next, rest) == 0);
        assert(count_extraction_failures(rest) == 0);
        assert(run_state(GateState::Invoking, events) == run_state(next, rest));
        assert(run_state(next, rest) == next);
    }
}

/// A valid run from `Extracting` asks for no further extraction, invokes the
/// guard at most once and never after an extraction failure, and forwards
/// only after an invocation: exactly once when it ends in `Forwarded`.
pub proof fn lemma_run_from_extracting<Args, GuardCallErr>(
    events: Seq<GateEvent<Args, GuardCallErr>>,
)
    requires
        valid_run(GateState::Extracting, events),
    ensures
        count_starts(GateState::Extracting, events) == 0,
        count_invocations(GateState::Extracting, events) + count_extraction_failures(events) <= 1,
        count_forwards(GateState::Extracting, events) <= count_invocations(
            GateState::Extracting,
            events,
        ),
        run_state(GateState::Extracting, events) is Forwarded ==> count_forwards(
            GateState::Extracting,
            events,
        ) == 1,
        run_state(GateState::Extracting, events) is Rejected ==> count_forwards(
            GateState::Extracting,
            events,
        ) == 0,
        count_extraction_failures(events) > 0 ==> count_invocations(GateState::Extracting, events)
            == 0 && run_state(GateState::Extracting, events) is Rejected,
{
    if events.len() > 0 {
        let e0 = events[0];
        let rest = events.drop_first();
        let next = gate_transition::<Args, GuardCallErr>(GateState::Extracting, e0).0;
        assert(gate_expects(GateState::Extracting, e0));
        assert(valid_run(next, rest));
        if e0 is ExtractionSucceeded {
            lemma_run_from_invoking(rest);
        } else {
            lemma_terminal_run(next, rest);
            assert(count_starts(next, rest) == 0);
            assert(count_invocations(next, rest) == 0);
            assert(count_forwards(next, rest) == 0);
            assert(count_extraction_failures(rest) == 0);
            assert(run_state(next, rest) == next);
        }
        assert(run_state(GateState::Extracting, events) == run_state(next, rest));
    }
}

/// Exactly-once evaluation: for any request routed into the guarded group
/// (any non-empty valid run), the middleware starts the guard evaluation exactly
/// once; the guard's own logic runs at most once; and the wrapped segment
/// runs at most once — exactly once when the run ends admitted, never when
/// it ends rejected.
pub proof fn lemma_exactly_once_evaluation<Args, GuardCallErr>(
    events: Seq<GateEvent<Args, GuardCallErr>>,
)
    requires
        valid_run(GateState::Received, events),
    ensures
        events.len() > 0 ==> count_starts(GateState::Received, events) == 1,
        count_invocations(GateState::Received, events) <= 1,
        count_forwards(GateState::Received, events) <= count_invocations(
            GateState::Received,
            events,
        ),
        run_state(GateState::Received, events) is Forwarded ==> count_forwards(
            GateState::Received,
            events,
        ) == 1 && count_invocations(GateState::Received, events) == 1,
        run_state(GateState::Received, events) is Rejected ==> count_forwards(
            GateState::Received,
            events,
        ) == 0,
{
    if events.len() > 0 {
        let e0 = events[0];
        let rest = events.drop_first();
        assert(gate_expects(GateState::Received, e0));
        assert(valid_run(GateState::Extracting, rest));
        lemma_run_from_extracting(rest);
    }
}

/// Extraction-failure short-circuit, over a whole run: if the chain reported
/// an extraction failure, the middleware never asked for the guard's own logic,
/// and the run ends rejected.
pub proof fn lemma_extraction_failure_short_circuit<Args, GuardCallErr>(
    events: Seq<GateEvent<Args, GuardCallErr>>,
)
    requires
        valid_run(GateState::Received, events),
        count_extraction_failures(events) > 0,
    ensures
        count_invocations(GateState::Received, events) == 0,
        run_state(GateState::Received, events) is Rejected,
{
    let e0 = events[0];
    let rest = events.drop_first();
    assert(gate_expects(GateState::Received, e0));
    assert(valid_run(GateState::Extracting, rest));
    assert(count_extraction_failures(rest) == count_extraction_failures(events));
    lemma_run_from_extracting(rest);
}

/// Whether an evaluation outcome admits the request.
pub open spec fn is_admit<GuardCallErr>(r: GuardResult<GuardCallErr>) -> bool {
    r is Ok
}

/// Whether an evaluation outcome is an extraction failure.
pub open spec fn is_extraction_failed<GuardCallErr>(r: GuardResult<GuardCallErr>) -> bool {
    r matches Err(GuardError::FromRequest(_))
}

/// Whether an evaluation outcome is a domain rejection by the guard.
pub open spec fn is_guard_rejected<GuardCallErr>(r: GuardResult<GuardCallErr>) -> bool {
    r matches Err(GuardError::GuardCall(_))
}

/// Mutual exclusivity: every evaluation outcome is exactly one of admit,
/// extraction failure, or domain rejection — never a combination, never
/// none.
pub proof fn lemma_outcome_mutually_exclusive<GuardCallErr>(r: GuardResult<GuardCallErr>)
    ensures
        is_admit(r) || is_extraction_failed(r) || is_guard_rejected(r),
        is_admit(r) ==> !is_extraction_failed(r) && !is_guard_rejected(r),
        is_extraction_failed(r) ==> !is_admit(r) && !is_guard_rejected(r),
        is_guard_rejected(r) ==> !is_admit(r) && !is_extraction_failed(r),
{
}

/// Extraction-failure short-circuit, at the outcome level: when extraction
/// fails, the guard's own decision cannot influence the outcome, which is
/// the extraction failure itself.
pub proof fn lemma_extraction_failure_masks_guard_decision<Args, GuardCallErr>(
    extracted: Result<Args, actix_web::Error>,
    first_decision: Result<(), GuardCallErr>,
    second_decision: Result<(), GuardCallErr>,
)
    requires
        extracted is Err,
    ensures
        evaluation_outcome(extracted, first_decision) == evaluation_outcome(
            extracted,
            second_decision,
        ),
        is_extraction_failed(evaluation_outcome(extracted, first_decision)),
{
}

/// Forward transparency: when the guard admits, the caller observes exactly
/// the response the wrapped segment alone produces — the middleware adds nothing
/// of its own on the success path.
pub proof fn lemma_forward_transparency<Resp, GuardCallErr>(
    evaluation: GuardResult<GuardCallErr>,
    segment_response: Resp,
)
    requires
        evaluation is Ok,
    ensures
        gate_outcome(evaluation, segment_response) == Result::<
            Resp,
            GuardError<GuardCallErr>,
        >::Ok(segment_response),
{
}

/// The outcome one middleware yields for one request, given the decision function
/// of guards of its guard type and the extraction outcome the framework
/// produced: the guard's decision enters only when extraction succeeded.
pub open spec fn gate_evaluation<Service, Guard, Args, GuardCallErr>(
    middleware: StateGuardMiddleware<Service, Guard>,
    guard_decides: spec_fn(Guard, Args) -> Result<(), GuardCallErr>,
    extracted: Result<Args, actix_web::Error>,
) -> GuardResult<GuardCallErr> {
    match extracted {
        Ok(args) => evaluation_outcome(extracted, guard_decides(middleware.guard(), args)),
        Err(_) => evaluation_outcome(extracted, Ok(())),
    }
}

/// Nesting uniformity: two middleware instances that enforce the same guard decide every
/// request identically, whatever chain segments they wrap and wherever in
/// the chain they stand — so attaching one guard to a top-level group and to
/// a nested sub-group yields the same per-request behavior.
pub proof fn lemma_nesting_uniformity<OuterSegment, InnerSegment, Guard, Args, GuardCallErr>(
    outer_gate: StateGuardMiddleware<OuterSegment, Guard>,
    inner_gate: StateGuardMiddleware<InnerSegment, Guard>,
    guard_decides: spec_fn(Guard, Args) -> Result<(), GuardCallErr>,
    extracted: Result<Args, actix_web::Error>,
)
    requires
        outer_gate.guard() == inner_gate.guard(),
    ensures
        gate_evaluation(outer_gate, guard_decides, extracted) == gate_evaluation(
            inner_gate,
            guard_decides,
            extracted,
        ),
{
}

} // verus!
