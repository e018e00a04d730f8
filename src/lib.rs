//! A client library for a generative-AI HTTP API: the message and response types, request
//! validation, endpoint URLs, token counting, and the decoder of streamed chat completions.
//! The HTTP transport itself lives with the caller.

use vstd::prelude::*;

pub mod audio;
pub mod chat;
pub mod embeddings;
pub mod models;
pub mod text;
pub mod tokenizer;

verus! {

/// Host of every endpoint this client talks to.
pub const BASE_URL: &'static str = "https://api.openai.com";

/// reqwest's error type, carried opaquely inside `ApiRequestError`.
#[verifier::external_type_specification]
#[verifier::external_body]
pub struct ExReqwestError(reqwest::Error);

/// serde_json's error type, carried opaquely inside `ApiRequestError`.
#[verifier::external_type_specification]
#[verifier::external_body]
pub struct ExSerdeJsonError(serde_json::Error);

/// serde_json's JSON value, carried opaquely where the API passes JSON through untouched
/// (log probabilities, tool calls).
#[verifier::external_type_specification]
#[verifier::external_body]
pub struct ExJsonValue(serde_json::Value);

/// The `error` object of a non-2xx response body.
#[derive(Debug)]
pub struct ApiErrorDetail {
    pub message: String,
    pub param: Option<String>,
    pub code: Option<String>,
}

/// The envelope `{ "error": { ... } }` that the API answers with on failure.
#[derive(Debug)]
pub struct ErrorResponse {
    pub error: ApiErrorDetail,
}

/// Every way a call to the API can fail.
#[derive(Debug)]
pub enum ApiRequestError {
    /// The HTTP client failed (connection, TLS, body read).
    ReqwestError(reqwest::Error),
    /// A body did not decode into the expected shape.
    SerdeError(serde_json::Error),
    /// The API refused the request; its error envelope, verbatim.
    InvalidRequestError { message: String, param: Option<String>, code: Option<String> },
    /// The API answered with something this client does not understand.
    UnexpectedResponse { response: String },
    /// A failure inside an event stream: a broken transport or a malformed event.
    Stream(String),
}

impl From<ErrorResponse> for ApiRequestError {
    /// The API's refusal, its message, parameter and code passed on verbatim.
    fn from(response: ErrorResponse) -> (r: ApiRequestError)
        ensures
            r == (ApiRequestError::InvalidRequestError {
                message: response.error.message,
                param: response.error.param,
                code: response.error.code,
            }),
    {
        ApiRequestError::InvalidRequestError {
            message: response.error.message,
            param: response.error.param,
            code: response.error.code,
        }
    }
}

impl vstd::std_specs::convert::FromSpecImpl<ErrorResponse> for ApiRequestError {
    open spec fn obeys_from_spec() -> bool {
        true
    }

    open spec fn from_spec(response: ErrorResponse) -> ApiRequestError {
        ApiRequestError::InvalidRequestError {
            message: response.error.message,
            param: response.error.param,
            code: response.error.code,
        }
    }
}

/// The URL of the endpoint at `path` below `BASE_URL`.
pub fn endpoint(path: &str) -> (r: String)
    ensures
        r@ == BASE_URL@ + seq!['/'] + path@,
{
    let mut r = BASE_URL.to_owned();
    proof {
        reveal_strlit("/");
    }
    r.append("/");
    r.append(path);
    assert(r@ =~= BASE_URL@ + seq!['/'] + path@);
    r
}

} // verus!
