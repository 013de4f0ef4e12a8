//! What a client of one backend needs to decide: which replies are
//! rejections, which failures allow another attempt, and how a rejection
//! reads.

use crate::text::{decimal, decimal_text};
use bytes::Bytes;
use vstd::prelude::*;
use vstd::string::*;

verus! {

/// `reqwest::Error`, the error of the HTTP client. Such an error is carried
/// to the caller as it is; nothing is read from it.
#[verifier::external_type_specification]
#[verifier::external_body]
pub struct ExTransportError(reqwest::Error);

/// The rejection that a backend sends in place of a document.
#[derive(Debug)]
pub struct ErrorResponse {
    /// Error code of the converter, if it gave one.
    pub code: Option<i32>,
    /// The backend's reason for the rejection.
    pub reason: String,
    /// The backend's backtrace, if it sent one.
    pub backtrace: Option<String>,
}

impl ErrorResponse {
    /// The rejection in words: the reason, followed by the error code in
    /// parentheses if there is one.
    pub open spec fn description(&self) -> Seq<char> {
        match self.code {
            Some(code) => self.reason@ + " (error_code = "@ + decimal_text(code as int) + ")"@,
            None => self.reason@,
        }
    }

    /// The rejection in words.
    pub fn describe(&self) -> (text: String)
        ensures
            text@ == self.description(),
    {
        let mut text = self.reason.clone();
        if let Some(code) = self.code {
            text.append(" (error_code = ");
            text.append(decimal(code as i64).as_str());
            text.append(")");
        }
        text
    }
}

/// Why a request to a backend failed.
#[derive(Debug)]
pub enum RequestError {
    /// The request did not reach the backend, or no reply came back.
    RequestFailed(reqwest::Error),
    /// The reply could not be read or was not what it should be.
    InvalidResponse(reqwest::Error),
    /// No connection was made in time.
    ServerConnectTimeout,
    /// The backend rejected the document.
    ErrorResponse(ErrorResponse),
}

impl RequestError {
    /// Whether another attempt may succeed where this one failed. A
    /// rejection is the backend's verdict on the document and stands; every
    /// other failure may pass.
    pub open spec fn retryable(&self) -> bool {
        !(self is ErrorResponse)
    }

    /// Whether the request should be tried again.
    #[verifier::when_used_as_spec(retryable)]
    pub fn is_retry(&self) -> (retry: bool)
        ensures
            retry == self.retryable(),
    {
        match self {
            RequestError::RequestFailed(_) => true,
            RequestError::InvalidResponse(_) => true,
            RequestError::ServerConnectTimeout => true,
            RequestError::ErrorResponse(_) => false,
        }
    }
}

/// Timeouts of the connection to one backend, in nanoseconds.
#[derive(Debug, Clone, Copy, PartialEq, Eq)]
pub struct ClientOptions {
    /// How long to wait for a connection to the backend.
    pub connect_timeout: Option<u64>,
    /// How long to wait for each part of a reply.
    pub read_timeout: Option<u64>,
}

impl ClientOptions {
    /// The options used where none are given: give up on a connection that
    /// is not made within 700 milliseconds, wait for a reply without limit.
    pub open spec fn standard() -> ClientOptions {
        ClientOptions { connect_timeout: Some(700_000_000), read_timeout: None }
    }
}

impl Default for ClientOptions {
    fn default() -> (options: Self)
        ensures
            options == ClientOptions::standard(),
    {
        ClientOptions { connect_timeout: Some(700_000_000), read_timeout: None }
    }
}

/// The HTTP status `status` announces a rejection: it is a client error
/// (400 to 499) or a server error (500 to 599).
pub open spec fn is_rejection_status(status: u16) -> bool {
    400 <= status <= 599
}

/// Whether a reply with HTTP status `status` carries a rejection in place
/// of a document.
pub fn carries_rejection(status: u16) -> (rejection: bool)
    ensures
        rejection == is_rejection_status(status),
{
    400 <= status && status < 600
}

/// The address of the conversion route of the backend at `host`.
pub fn convert_route(host: &str) -> (route: String)
    ensures
        route@ == host@ + "/convert"@,
{
    let mut route = String::from_str(host);
    route.append("/convert");
    route
}

/// What was read of a backend's reply, or why reading it failed.
#[derive(Debug)]
pub enum ReplyBody {
    /// The reply announced a rejection.
    Rejection(Result<ErrorResponse, reqwest::Error>),
    /// The reply announced a document.
    Document(Result<Bytes, reqwest::Error>),
}

/// The result of a conversion request, given what was read of the reply.
pub open spec fn reply_result(body: ReplyBody) -> Result<Bytes, RequestError> {
    match body {
        ReplyBody::Rejection(Ok(rejection)) => Err(RequestError::ErrorResponse(rejection)),
        ReplyBody::Rejection(Err(error)) => Err(RequestError::InvalidResponse(error)),
        ReplyBody::Document(Ok(document)) => Ok(document),
        ReplyBody::Document(Err(error)) => Err(RequestError::InvalidResponse(error)),
    }
}

/// The result of a conversion request, given what was read of the reply:
/// the document, the backend's rejection, or an invalid response where the
/// reply could not be read.
pub fn reply_outcome(body: ReplyBody) -> (outcome: Result<Bytes, RequestError>)
    ensures
        outcome == reply_result(body),
{
    match body {
        ReplyBody::Rejection(Ok(rejection)) => Err(RequestError::ErrorResponse(rejection)),
        ReplyBody::Rejection(Err(error)) => Err(RequestError::InvalidResponse(error)),
        ReplyBody::Document(Ok(document)) => Ok(document),
        ReplyBody::Document(Err(error)) => Err(RequestError::InvalidResponse(error)),
    }
}

} // verus!
