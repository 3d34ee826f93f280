//! Failures: those of reaching the upstream, the resolver's conclusions, and
//! the HTTP errors the server answers with.

use vstd::prelude::*;
use crate::codec::{json_quote, json_string_literal};

verus! {

/// A failure of the query client.
#[derive(Debug, Clone)]
pub enum ClientError {
    /// The upstream could not be reached (network or TLS).
    Transport(String),
    /// The response body could not be read as expected.
    Decode(String),
    /// The page holds no element with the expected identifier.
    NotFound(String),
}

/// Why a handle did not resolve to a profile.
#[derive(Debug, Clone, Copy, PartialEq, Eq, Structural)]
pub enum ResolutionFailure {
    /// The upstream reports that there is no such account.
    NotFound,
    /// The upstream could not be reached or its answer could not be read.
    UpstreamUnavailable,
    /// The upstream answered in a shape that cannot be interpreted.
    ProtocolViolation,
}

/// The resolver's reading of a client failure.
pub open spec fn failure_of(e: ClientError) -> ResolutionFailure {
    match e {
        ClientError::Transport(_) => ResolutionFailure::UpstreamUnavailable,
        ClientError::Decode(_) => ResolutionFailure::UpstreamUnavailable,
        ClientError::NotFound(_) => ResolutionFailure::ProtocolViolation,
    }
}

impl ClientError {
    /// The resolver's reading of this failure.
    pub fn to_resolution_failure(&self) -> (r: ResolutionFailure)
        ensures
            r == failure_of(*self),
    {
        match self {
            ClientError::Transport(_) => ResolutionFailure::UpstreamUnavailable,
            ClientError::Decode(_) => ResolutionFailure::UpstreamUnavailable,
            ClientError::NotFound(_) => ResolutionFailure::ProtocolViolation,
        }
    }
}

/// An HTTP error response: its status code and the message of its body.
#[derive(Debug, Clone)]
pub struct ErrorWithStatus {
    pub status: u16,
    pub message: String,
}

/// The error a request handler answers with.
#[derive(Debug, Clone)]
pub enum ResponseError {
    /// An error with its own status.
    WithStatus(ErrorWithStatus),
    /// Any other failure: an internal server error.
    Internal(String),
}

/// The JSON body of an error response.
pub open spec fn error_body(message: Seq<char>) -> Seq<char> {
    "{\"error\":"@ + json_string_literal(message) + "}"@
}

/// The JSON body `{"error": message}` of an error response.
pub fn json_error(message: &str) -> (r: String)
    ensures
        r@ == error_body(message@),
{
    let mut r = String::from_str("{\"error\":");
    let quoted = json_quote(message);
    r.append(quoted.as_str());
    r.append("}");
    r
}

impl ResponseError {
    /// The status code and JSON body of the response.
    pub fn into_response(self) -> (r: (u16, String))
        ensures
            match self {
                ResponseError::WithStatus(e) => r.0 == e.status && r.1@ == error_body(e.message@),
                ResponseError::Internal(m) => r.0 == 500 && r.1@ == error_body(m@),
            },
    {
        match self {
            ResponseError::WithStatus(e) => (e.status, json_error(e.message.as_str())),
            ResponseError::Internal(m) => (500, json_error(m.as_str())),
        }
    }
}

} // verus!
