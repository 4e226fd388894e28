use std::sync::Mutex;

use actix_state_guards::GateAction;
use actix_state_guards::GateEvent;
use actix_state_guards::GateState;
use actix_state_guards::GuardError;
use actix_state_guards::StateGuard;
use actix_state_guards::gate_step;
use actix_state_guards::resolve_extraction;

use actix_web::FromRequest;
use actix_web::ResponseError;

/// The domain error of the counter guard: a fixed rejection once the shared
/// counter has reached its limit.
#[derive(Debug)]
struct CounterError();

impl std::fmt::Display for CounterError {
    fn fmt(&self, f: &mut std::fmt::Formatter<'_>) -> std::fmt::Result {
        f.write_str("Error: Counter is over 100")
    }
}

impl ResponseError for CounterError {}

/// A domain error with a status of its own, to tell a guard rejection's
/// rendering apart from the framework's extraction-failure rendering.
#[derive(Debug)]
struct QuotaError();

impl std::fmt::Display for QuotaError {
    fn fmt(&self, f: &mut std::fmt::Formatter<'_>) -> std::fmt::Result {
        f.write_str("quota exhausted")
    }
}

impl ResponseError for QuotaError {
    fn status_code(&self) -> actix_web::http::StatusCode {
        actix_web::http::StatusCode::FORBIDDEN
    }
}

/// Drives one request through the middleware protocol against a guard and a
/// handler, as the surrounding chain would.
fn run_request<Args, E, R>(
    extraction: Result<Args, actix_web::Error>,
    guard: &dyn Fn(Args) -> Result<(), E>,
    handler: &mut dyn FnMut() -> R,
) -> Result<R, GuardError<E>> {
    let (s, a): (GateState, GateAction<Args, E>) =
        gate_step(GateState::Received, GateEvent::Dispatched);
    assert!(matches!(a, GateAction::StartExtraction));
    let event = match extraction {
        Ok(args) => GateEvent::ExtractionSucceeded(args),
        Err(err) => GateEvent::ExtractionFailed(err),
    };
    let (s, a) = gate_step(s, event);
    match a {
        GateAction::InvokeGuard(args) => {
            let event = match guard(args) {
                Ok(()) => GateEvent::GuardAdmitted,
                Err(err) => GateEvent::GuardRejected(err),
            };
            let (_, a): (GateState, GateAction<Args, E>) = gate_step(s, event);
            match a {
                GateAction::ForwardRequest => Ok(handler()),
                GateAction::RespondWith(err) => Err(err),
                _ => panic!("protocol violation"),
            }
        }
        GateAction::RespondWith(err) => Err(err),
        _ => panic!("protocol violation"),
    }
}

#[test]
fn counter_guard_admits_the_first_hundred_requests() {
    let counter: Mutex<u32> = Mutex::new(0);
    let factory = StateGuard::new(|limit: u32| -> Result<(), CounterError> {
        if *counter.lock().unwrap() < limit {
            Ok(())
        } else {
            Err(CounterError())
        }
    });
    let middleware = factory.new_transform(String::from("counting segment"));
    for request in 1u32..=150 {
        let mut handler = || {
            let mut held = counter.lock().unwrap();
            *held += 1;
            held.to_string()
        };
        let response = run_request(Ok(100u32), middleware.guard_ref(), &mut handler);
        if request <= 100 {
            match response {
                Ok(body) => assert_eq!(body, request.to_string()),
                Err(_) => panic!("request {request} should have been admitted"),
            }
        } else {
            match response {
                Ok(_) => panic!("request {request} should have been rejected"),
                Err(GuardError::GuardCall(err)) => {
                    assert_eq!(err.to_string(), "Error: Counter is over 100");
                    assert_eq!(err.status_code().as_u16(), 500);
                }
                Err(GuardError::FromRequest(_)) => panic!("extraction never failed"),
            }
        }
        assert!(*counter.lock().unwrap() <= 100);
    }
    assert_eq!(*counter.lock().unwrap(), 100);
}

#[test]
fn missing_state_registration_fails_extraction_with_the_framework_status() {
    let request = actix_web::test::TestRequest::default().to_http_request();
    let mut payload = actix_web::dev::Payload::None;
    let extracted = actix_web::rt::System::new().block_on(
        <actix_web::web::Data<Mutex<u32>> as FromRequest>::from_request(&request, &mut payload),
    );
    let framework_status = match &extracted {
        Ok(_) => panic!("no shared counter was registered, extraction must fail"),
        Err(err) => err.as_response_error().status_code().as_u16(),
    };
    let step = resolve_extraction::<actix_web::web::Data<Mutex<u32>>, QuotaError>(extracted);
    match step {
        actix_state_guards::EvalStep::InvokeGuard(_) => panic!("extraction failed"),
        actix_state_guards::EvalStep::ShortCircuit(rejection) => {
            assert!(matches!(rejection, GuardError::FromRequest(_)));
            let status = rejection.extraction_status_code();
            assert_eq!(status, Some(framework_status));
            assert_eq!(status, Some(500));
            assert_ne!(status, Some(QuotaError().status_code().as_u16()));
        }
    }
}

#[test]
fn domain_rejection_carries_no_extraction_status() {
    let rejection: GuardError<CounterError> = GuardError::GuardCall(CounterError());
    assert_eq!(rejection.extraction_status_code(), None);
}

#[test]
fn extraction_failure_keeps_the_framework_rendering() {
    let underlying = actix_web::error::ErrorImATeapot("short and stout");
    let expected = underlying.as_response_error().status_code().as_u16();
    let step = resolve_extraction::<u32, CounterError>(Err(underlying));
    match step {
        actix_state_guards::EvalStep::InvokeGuard(_) => panic!("extraction failed"),
        actix_state_guards::EvalStep::ShortCircuit(rejection) => {
            assert_eq!(rejection.extraction_status_code(), Some(expected));
            assert_eq!(rejection.extraction_status_code(), Some(418));
        }
    }
}
