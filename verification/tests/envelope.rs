//! Tests for the request envelope: status classification and the single
//! transparent retry.

use fractal_api::envelope::{
    interpret_response, resolve_exchange, resolve_first, resolve_retry, AttemptOutcome, FirstStep,
};
use fractal_api::error::Error;

#[test]
fn a_200_hands_its_body_back() {
    let r = interpret_response(200, "{\"anything\": 1}".to_string());
    assert_eq!(r.unwrap(), "{\"anything\": 1}");
}

#[test]
fn a_401_is_forbidden_with_the_server_message() {
    let r = interpret_response(401, "{\"message\": \"X\"}".to_string());
    assert_eq!(r.unwrap_err(), Error::Forbidden("X".to_string()));
}

#[test]
fn a_400_is_a_bad_request_with_the_server_message() {
    let r = interpret_response(400, "{\"message\": \"X\"}".to_string());
    assert_eq!(r.unwrap_err(), Error::BadRequest("X".to_string()));
}

#[test]
fn a_404_is_not_found_with_the_server_message() {
    let r = interpret_response(404, "{\"message\": \"X\"}".to_string());
    assert_eq!(r.unwrap_err(), Error::NotFound("X".to_string()));
}

#[test]
fn a_202_is_a_client_error_with_the_server_message() {
    let r = interpret_response(202, "{\"message\": \"X\"}".to_string());
    assert_eq!(r.unwrap_err(), Error::Client("X".to_string()));
}

#[test]
fn any_other_status_is_a_server_error_with_the_message() {
    let r = interpret_response(500, "{\"message\": \"X\"}".to_string());
    assert_eq!(r.unwrap_err(), Error::Server("X".to_string()));
    let r = interpret_response(503, "{\"message\": \"down\"}".to_string());
    assert_eq!(r.unwrap_err(), Error::Server("down".to_string()));
}

#[test]
fn the_message_text_is_kept_exactly() {
    let r = interpret_response(404, "{\"message\": \"no such user: a\\\"b\"}".to_string());
    assert_eq!(r.unwrap_err(), Error::NotFound("no such user: a\"b".to_string()));
}

#[test]
fn an_unreadable_error_body_is_a_decode_error() {
    let r = interpret_response(500, "not json at all".to_string());
    assert!(matches!(r.unwrap_err(), Error::JSONDecode(_)));
    let r = interpret_response(500, "{\"message\": 5}".to_string());
    assert!(matches!(r.unwrap_err(), Error::JSONDecode(_)));
    let r = interpret_response(500, "{\"other\": \"X\"}".to_string());
    assert!(matches!(r.unwrap_err(), Error::JSONDecode(_)));
}

/// A transport double that hands out scripted outcomes and counts how often
/// it was asked.
struct ScriptedTransport {
    outcomes: Vec<AttemptOutcome>,
    calls: usize,
}

impl ScriptedTransport {
    fn new(outcomes: Vec<AttemptOutcome>) -> ScriptedTransport {
        ScriptedTransport { outcomes, calls: 0 }
    }

    fn send(&mut self) -> AttemptOutcome {
        let outcome = self.outcomes.remove(0);
        self.calls += 1;
        outcome
    }

    /// Runs a whole exchange the way an embedding program does: one send,
    /// and exactly one more where the library asks for a retry.
    fn run(&mut self) -> Result<String, Error> {
        match resolve_first(self.send()) {
            FirstStep::Settled(r) => r,
            FirstStep::RetryNeeded => resolve_retry(self.send()),
        }
    }
}

#[test]
fn a_failing_then_succeeding_transport_is_asked_exactly_twice() {
    let mut transport = ScriptedTransport::new(vec![
        AttemptOutcome::Failure("connection reset".to_string()),
        AttemptOutcome::Response(200, "{\"message\": \"ok\"}".to_string()),
    ]);
    let r = transport.run();
    assert_eq!(r.unwrap(), "{\"message\": \"ok\"}");
    assert_eq!(transport.calls, 2);
}

#[test]
fn a_succeeding_transport_is_asked_exactly_once() {
    let mut transport = ScriptedTransport::new(vec![
        AttemptOutcome::Response(200, "body".to_string()),
        AttemptOutcome::Failure("never reached".to_string()),
    ]);
    let r = transport.run();
    assert_eq!(r.unwrap(), "body");
    assert_eq!(transport.calls, 1);
}

#[test]
fn a_twice_failing_transport_surfaces_the_second_failure() {
    let mut transport = ScriptedTransport::new(vec![
        AttemptOutcome::Failure("first".to_string()),
        AttemptOutcome::Failure("second".to_string()),
    ]);
    let r = transport.run();
    assert_eq!(r.unwrap_err(), Error::Hyper("second".to_string()));
    assert_eq!(transport.calls, 2);
}

#[test]
fn resolve_exchange_counts_its_attempts() {
    let (attempts, r) = resolve_exchange(
        AttemptOutcome::Failure("x".to_string()),
        AttemptOutcome::Response(200, "done".to_string()),
    );
    assert_eq!(attempts, 2);
    assert_eq!(r.unwrap(), "done");

    let (attempts, r) = resolve_exchange(
        AttemptOutcome::Response(404, "{\"message\": \"gone\"}".to_string()),
        AttemptOutcome::Failure("never reached".to_string()),
    );
    assert_eq!(attempts, 1);
    assert_eq!(r.unwrap_err(), Error::NotFound("gone".to_string()));
}

#[test]
fn a_retried_response_is_still_classified() {
    let (attempts, r) = resolve_exchange(
        AttemptOutcome::Failure("x".to_string()),
        AttemptOutcome::Response(202, "{\"message\": \"check your email\"}".to_string()),
    );
    assert_eq!(attempts, 2);
    assert_eq!(r.unwrap_err(), Error::Client("check your email".to_string()));
}
