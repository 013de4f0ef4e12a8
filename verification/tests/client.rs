use bytes::Bytes;
use onlyoffice_convert::client::{
    carries_rejection, convert_route, reply_outcome, ClientOptions, ErrorResponse, ReplyBody,
    RequestError,
};

fn transport_error() -> reqwest::Error {
    reqwest::Client::new().get("not an address").build().unwrap_err()
}

fn rejection(code: Option<i32>, reason: &str) -> ErrorResponse {
    ErrorResponse { code, reason: reason.to_string(), backtrace: None }
}

#[test]
fn failed_request_is_retried() {
    assert!(RequestError::RequestFailed(transport_error()).is_retry());
}

#[test]
fn invalid_response_is_retried() {
    assert!(RequestError::InvalidResponse(transport_error()).is_retry());
}

#[test]
fn connect_timeout_is_retried() {
    assert!(RequestError::ServerConnectTimeout.is_retry());
}

#[test]
fn rejection_is_not_retried() {
    assert!(!RequestError::ErrorResponse(rejection(Some(88), "bad parameters")).is_retry());
    assert!(!RequestError::ErrorResponse(rejection(None, "no")).is_retry());
}

#[test]
fn rejection_with_code_reads_reason_and_code() {
    assert_eq!(
        rejection(Some(88), "bad parameters").describe(),
        "bad parameters (error_code = 88)"
    );
    assert_eq!(rejection(Some(0), "zero").describe(), "zero (error_code = 0)");
    assert_eq!(rejection(Some(7), "").describe(), " (error_code = 7)");
}

#[test]
fn rejection_with_negative_code_keeps_the_sign() {
    assert_eq!(rejection(Some(-1), "crashed").describe(), "crashed (error_code = -1)");
    assert_eq!(
        rejection(Some(i32::MIN), "low").describe(),
        "low (error_code = -2147483648)"
    );
    assert_eq!(
        rejection(Some(i32::MAX), "high").describe(),
        "high (error_code = 2147483647)"
    );
}

#[test]
fn rejection_without_code_reads_the_reason() {
    assert_eq!(rejection(None, "file is corrupted").describe(), "file is corrupted");
    assert_eq!(rejection(None, "").describe(), "");
}

#[test]
fn rejection_description_leaves_the_backtrace_out() {
    let with_trace = ErrorResponse {
        code: Some(1),
        reason: "failed".to_string(),
        backtrace: Some("at line 3".to_string()),
    };
    assert_eq!(with_trace.describe(), "failed (error_code = 1)");
}

#[test]
fn default_client_options_give_up_connecting_after_700_milliseconds() {
    let options = ClientOptions::default();
    assert_eq!(options.connect_timeout, Some(700_000_000));
    assert_eq!(options.read_timeout, None);
}

#[test]
fn client_and_server_errors_carry_a_rejection() {
    for status in [400u16, 404, 422, 499, 500, 503, 599] {
        assert!(carries_rejection(status), "{}", status);
    }
}

#[test]
fn other_statuses_carry_a_document() {
    for status in [0u16, 100, 200, 204, 301, 399, 600, 999, u16::MAX] {
        assert!(!carries_rejection(status), "{}", status);
    }
}

#[test]
fn convert_route_is_the_host_and_convert() {
    assert_eq!(convert_route("http://localhost:8080"), "http://localhost:8080/convert");
    assert_eq!(convert_route(""), "/convert");
    assert_eq!(convert_route("http://h/"), "http://h//convert");
}

#[test]
fn document_that_was_read_is_the_result() {
    let outcome = reply_outcome(ReplyBody::Document(Ok(Bytes::from_static(b"%PDF-1.7"))));
    assert_eq!(&outcome.unwrap()[..], b"%PDF-1.7");
}

#[test]
fn document_that_could_not_be_read_is_an_invalid_response() {
    let outcome = reply_outcome(ReplyBody::Document(Err(transport_error())));
    assert!(matches!(outcome, Err(RequestError::InvalidResponse(_))));
}

#[test]
fn rejection_that_was_read_is_returned_as_it_is() {
    let outcome = reply_outcome(ReplyBody::Rejection(Ok(ErrorResponse {
        code: Some(86),
        reason: "file is corrupted".to_string(),
        backtrace: Some("trace".to_string()),
    })));
    match outcome {
        Err(RequestError::ErrorResponse(response)) => {
            assert_eq!(response.code, Some(86));
            assert_eq!(response.reason, "file is corrupted");
            assert_eq!(response.backtrace.as_deref(), Some("trace"));
        },
        other => panic!("{:?}", other),
    }
}

#[test]
fn rejection_that_could_not_be_read_is_an_invalid_response() {
    let outcome = reply_outcome(ReplyBody::Rejection(Err(transport_error())));
    match outcome {
        Err(error) => {
            assert!(matches!(error, RequestError::InvalidResponse(_)));
            assert!(error.is_retry());
        },
        Ok(_) => panic!("a document"),
    }
}
