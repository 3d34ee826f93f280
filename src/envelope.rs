//! The per-item envelope of the batched query protocol: a tagged union whose
//! one member is either `result`, carrying a `data` payload, or `error`,
//! carrying a structured failure.

use vstd::prelude::*;
use crate::json::{Json, field};
use crate::text::same_text;
use crate::types::{CohostError, cohost_error_readable, cohost_error_read, only_member};

verus! {

broadcast use vstd::string::group_string_axioms;

/// A successful item: its payload, read further by the caller.
#[derive(Debug)]
pub struct Success {
    pub data: Json,
}

/// One item of a batched response.
#[derive(Debug)]
pub enum CohostResponse {
    /// The query ran; the upstream tags this `result`.
    Success(Success),
    /// The query failed; the upstream tags this `error`.
    Failure(CohostError),
}

/// The upstream answered in a shape that the protocol does not allow.
#[derive(Debug, Clone, Copy, PartialEq, Eq, Structural)]
pub enum ProtocolError {
    /// The batch holds no item for the query.
    MissingElement,
    /// The item is neither a well-formed success nor a well-formed failure.
    UnexpectedShape,
}

/// The payload of an item tagged `result`.
pub open spec fn success_payload(item: Json) -> Option<Json> {
    match only_member(item) {
        Some((tag, v)) => if tag == "result"@ {
            field(v, "data"@)
        } else {
            None
        },
        None => None,
    }
}

/// The body of an item tagged `error`, when it is a well-formed failure.
pub open spec fn failure_body(item: Json) -> Option<Json> {
    match only_member(item) {
        Some((tag, v)) => if tag == "error"@ && cohost_error_readable(v) {
            Some(v)
        } else {
            None
        },
        None => None,
    }
}

/// The first item of a batch.
pub open spec fn first_item(batch: Json) -> Option<Json> {
    match batch {
        Json::Array(items) => if items@.len() > 0 {
            Some(items@[0])
        } else {
            None
        },
        _ => None,
    }
}

/// Whether `r` is what decoding `item` gives: the payload of a success, the
/// failure the upstream reported, or a protocol error for any other shape.
pub open spec fn decoded_as(item: Json, r: Result<Result<Json, CohostError>, ProtocolError>) -> bool {
    match success_payload(item) {
        Some(d) => r == Ok::<Result<Json, CohostError>, ProtocolError>(Ok(d)),
        None => match failure_body(item) {
            Some(v) => r matches Ok(Err(e)) && cohost_error_read(v, e),
            None => r == Err::<Result<Json, CohostError>, ProtocolError>(ProtocolError::UnexpectedShape),
        },
    }
}

impl CohostResponse {
    /// Reads one item of a batched response.
    pub fn from_json(item: Json) -> (r: Option<CohostResponse>)
        ensures
            match success_payload(item) {
                Some(d) => r matches Some(CohostResponse::Success(s)) && s.data == d,
                None => match failure_body(item) {
                    Some(v) => r matches Some(CohostResponse::Failure(e)) && cohost_error_read(v, e),
                    None => r is None,
                },
            },
    {
        proof {
            reveal_strlit("result");
            reveal_strlit("error");
            assert("result"@.len() != "error"@.len());
        }
        match item {
            Json::Object(members) => {
                let mut members = members;
                if members.len() != 1 {
                    return None;
                }
                let (tag, value) = members.remove(0);
                if same_text(tag.as_str(), "result") {
                    let mut value = value;
                    match value.take("data") {
                        Some(data) => Some(CohostResponse::Success(Success { data })),
                        None => None,
                    }
                } else if same_text(tag.as_str(), "error") {
                    match CohostError::from_json(&value) {
                        Some(e) => Some(CohostResponse::Failure(e)),
                        None => None,
                    }
                } else {
                    None
                }
            },
            _ => None,
        }
    }
}

/// Decodes one item of a batched response into the success payload or the
/// failure the upstream reported; any other shape is a protocol error.
pub fn decode_one(item: Json) -> (r: Result<Result<Json, CohostError>, ProtocolError>)
    ensures
        decoded_as(item, r),
{
    match CohostResponse::from_json(item) {
        Some(CohostResponse::Success(s)) => Ok(Ok(s.data)),
        Some(CohostResponse::Failure(e)) => Ok(Err(e)),
        None => Err(ProtocolError::UnexpectedShape),
    }
}

/// Decodes the first item of a batch of one query; a batch that is not an
/// array, or is empty, is a protocol error.
pub fn decode_single(batch: Json) -> (r: Result<Result<Json, CohostError>, ProtocolError>)
    ensures
        match first_item(batch) {
            Some(item) => decoded_as(item, r),
            None => r == Err::<Result<Json, CohostError>, ProtocolError>(ProtocolError::MissingElement),
        },
{
    match batch {
        Json::Array(items) => {
            let mut items = items;
            if items.len() == 0 {
                return Err(ProtocolError::MissingElement);
            }
            decode_one(items.remove(0))
        },
        _ => Err(ProtocolError::MissingElement),
    }
}

} // verus!
