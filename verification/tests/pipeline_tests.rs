use blackroad::Error;
use blackroad::RetryStep;
use blackroad::SendOutcome;
use blackroad::classify_response;
use blackroad::max_retries_exceeded;
use blackroad::retry_step;

#[test]
fn success_statuses_return_the_raw_body() {
    assert_eq!(
        classify_response(200, String::from("{\"ok\":true}")).unwrap(),
        "{\"ok\":true}"
    );
    assert_eq!(classify_response(201, String::from("x")).unwrap(), "x");
    assert_eq!(classify_response(299, String::from("y")).unwrap(), "y");
}

#[test]
fn unauthorized_maps_to_authentication_error() {
    assert_eq!(
        classify_response(401, String::from("ignored")),
        Err(Error::Authentication(String::from("Invalid API key")))
    );
}

#[test]
fn not_found_carries_exactly_the_body_text() {
    assert_eq!(
        classify_response(404, String::from("agent not found")),
        Err(Error::NotFound(String::from("agent not found")))
    );
}

#[test]
fn unprocessable_maps_to_validation_error_with_body() {
    assert_eq!(
        classify_response(422, String::from("bad field")),
        Err(Error::Validation(String::from("bad field")))
    );
}

#[test]
fn rate_limit_reports_retry_after_of_one_second() {
    assert_eq!(
        classify_response(429, String::from("slow down")),
        Err(Error::RateLimit { retry_after: 1 })
    );
}

#[test]
fn other_statuses_map_to_generic_api_error() {
    assert_eq!(
        classify_response(500, String::from("boom")),
        Err(Error::Api { status: 500, message: String::from("boom") })
    );
    assert_eq!(
        classify_response(300, String::from("moved")),
        Err(Error::Api { status: 300, message: String::from("moved") })
    );
    assert_eq!(
        classify_response(199, String::from("odd")),
        Err(Error::Api { status: 199, message: String::from("odd") })
    );
}

#[test]
fn a_received_response_is_never_retried() {
    let step = retry_step(
        0,
        3,
        SendOutcome::Response { status: 404, body: String::from("agent not found") },
    );
    assert_eq!(
        step,
        RetryStep::Done(Err(Error::NotFound(String::from("agent not found"))))
    );
    let step = retry_step(0, 3, SendOutcome::Response { status: 500, body: String::from("e") });
    assert_eq!(
        step,
        RetryStep::Done(Err(Error::Api { status: 500, message: String::from("e") }))
    );
}

#[test]
fn two_failures_then_success_sleep_one_then_two_seconds() {
    let first = retry_step(0, 3, SendOutcome::TransportFailure { message: String::from("dns") });
    assert_eq!(first, RetryStep::Backoff { delay_secs: 1 });
    let second = retry_step(1, 3, SendOutcome::TransportFailure { message: String::from("dns") });
    assert_eq!(second, RetryStep::Backoff { delay_secs: 2 });
    let third = retry_step(
        2,
        3,
        SendOutcome::Response { status: 200, body: String::from("{\"agents\":[]}") },
    );
    assert_eq!(third, RetryStep::Done(Ok(String::from("{\"agents\":[]}"))));
}

#[test]
fn the_last_transport_failure_is_returned_as_a_connection_error() {
    let step = retry_step(2, 3, SendOutcome::TransportFailure { message: String::from("timeout") });
    assert_eq!(
        step,
        RetryStep::Done(Err(Error::Connection(String::from("Request failed: timeout"))))
    );
}

#[test]
fn backoff_doubles_per_attempt() {
    let step = retry_step(4, 10, SendOutcome::TransportFailure { message: String::from("x") });
    assert_eq!(step, RetryStep::Backoff { delay_secs: 16 });
}

#[test]
fn zero_attempts_yield_the_max_retries_exceeded_error() {
    assert_eq!(
        max_retries_exceeded(),
        Error::Connection(String::from("Max retries exceeded"))
    );
}
