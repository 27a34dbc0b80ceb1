use roblox_client::dispatch::{classify_response, ClassifiedResponse, TransportOutcome};
use roblox_client::envelope::normalized_error;
use roblox_client::status::{decimal_string, is_success_status, status_text};

#[test]
fn decimal_rendering() {
    assert_eq!(decimal_string(0), "0");
    assert_eq!(decimal_string(7), "7");
    assert_eq!(decimal_string(404), "404");
    assert_eq!(decimal_string(65535), "65535");
    assert_eq!(decimal_string(u64::MAX), "18446744073709551615");
}

#[test]
fn success_range() {
    assert!(!is_success_status(199));
    assert!(is_success_status(200));
    assert!(is_success_status(204));
    assert!(is_success_status(299));
    assert!(!is_success_status(300));
    assert!(!is_success_status(403));
}

#[test]
fn status_text_known_and_unknown() {
    assert_eq!(status_text(404), "404 Not Found");
    assert_eq!(status_text(500), "500 Internal Server Error");
    assert_eq!(status_text(403), "403 Forbidden");
    assert_eq!(status_text(599), "599 <unknown status code>");
}

#[test]
fn first_envelope_message_wins() {
    let body = "{\"errors\":[{\"code\":1,\"message\":\"first problem\"},{\"code\":2,\"message\":\"second problem\"}]}";
    assert_eq!(normalized_error(400, body), "first problem");
}

#[test]
fn malformed_envelope_falls_back_to_status_text() {
    assert_eq!(normalized_error(404, "not json at all"), "404 Not Found");
    assert_eq!(normalized_error(404, ""), "404 Not Found");
    assert_eq!(normalized_error(404, "{\"message\":\"stray\"}"), "404 Not Found");
    // An entry without a string message is not a well-formed envelope.
    assert_eq!(
        normalized_error(500, "{\"errors\":[{\"message\":5}]}"),
        "500 Internal Server Error"
    );
}

#[test]
fn empty_envelope_falls_back_to_status_text() {
    assert_eq!(normalized_error(404, "{\"errors\":[]}"), "404 Not Found");
}

#[test]
fn transport_failure_classified_as_failure() {
    let outcome = TransportOutcome::Failure("dns error".to_string());
    assert_eq!(
        classify_response(outcome),
        ClassifiedResponse::Failure("dns error".to_string())
    );
}

#[test]
fn success_response_surfaces_body() {
    let outcome = TransportOutcome::Response {
        status: 200,
        body: "{\"id\":1,\"name\":\"builderman\"}".to_string(),
    };
    assert_eq!(
        classify_response(outcome),
        ClassifiedResponse::Payload("{\"id\":1,\"name\":\"builderman\"}".to_string())
    );
}

#[test]
fn failing_response_surfaces_normalized_error() {
    let outcome = TransportOutcome::Response {
        status: 404,
        body: "{\"errors\":[{\"code\":7,\"message\":\"not here\"}]}".to_string(),
    };
    assert_eq!(
        classify_response(outcome),
        ClassifiedResponse::Failure("not here".to_string())
    );
}

#[test]
fn failing_response_without_envelope_names_status() {
    let outcome = TransportOutcome::Response { status: 404, body: String::new() };
    match classify_response(outcome) {
        ClassifiedResponse::Failure(message) => assert!(message.contains("404")),
        ClassifiedResponse::Payload(_) => panic!("a 404 must not classify as a payload"),
    }
}

#[test]
fn invalid_user_lookup_message() {
    // The wire response for a lookup of a user id the service rejects:
    // the literal validation message of the first envelope entry wins.
    let body = "{\"errors\":[{\"code\":3,\"message\":\"The user id is invalid.\"}]}";
    let outcome = TransportOutcome::Response { status: 400, body: body.to_string() };
    match classify_response(outcome) {
        ClassifiedResponse::Failure(message) => {
            assert_eq!(message, "The user id is invalid.");
        },
        ClassifiedResponse::Payload(_) => panic!("a rejected lookup must not yield a payload"),
    }
}
