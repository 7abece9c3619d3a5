use supply_service::amount::to_string_native;
use supply_service::error::ApiError;
use supply_service::server::{ApplicationServer, HTTP_TIMEOUT_SECS};

#[test]
fn unknown_route_is_not_found() {
    let (status, body) = ApplicationServer::not_found();
    assert_eq!(status, 404);
    assert_eq!(
        body,
        "{\"errors\":{\"message\":[\"The requested resource does not exist on this server!\"]}}"
    );
}

#[test]
fn request_timeout_names_the_limit() {
    let (status, body) = ApplicationServer::request_timeout(HTTP_TIMEOUT_SECS);
    assert_eq!(status, 408);
    assert_eq!(body, "{\"error\":\"request took longer than the configured 60 second timeout\"}");
}

#[test]
fn upstream_failure_is_a_gateway_timeout() {
    let e = ApiError::UpstreamUnavailable;
    assert_eq!(e.status_code(), 504);
    assert_eq!(e.message(), "Couldn't query rpc");
    assert_eq!(e.body(), "{\"error\":\"Couldn't query rpc\"}");
}

#[test]
fn invariant_violation_is_an_internal_error() {
    let e = ApiError::InvariantViolation;
    assert_eq!(e.status_code(), 500);
    assert_eq!(e.body(), "{\"error\":\"Inconsistent supply data\"}");
}

#[test]
fn amounts_are_written_in_base_units() {
    assert_eq!(to_string_native(0), "0");
    assert_eq!(to_string_native(7), "7");
    assert_eq!(to_string_native(10), "10");
    assert_eq!(to_string_native(999700), "999700");
    assert_eq!(to_string_native(u128::MAX), u128::MAX.to_string());
}
