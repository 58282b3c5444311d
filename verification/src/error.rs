//! The structured error that every non-success outcome of the library
//! surfaces, and the assembly of one from a response.
use vstd::prelude::*;
use vstd::string::*;

use crate::json::{json_from_str, json_get_cloned, json_as_string};
use crate::text::{spec_dec_digits, u64_to_dec_string};
use crate::json::spec_json_parses;

verus! {

/// The failure descriptor for every non-success outcome: a message, and
/// whatever status, server code, details payload and correlation id the
/// response carried.
#[derive(Debug, Clone)]
pub struct APIError {
    pub message: String,
    pub status: Option<u16>,
    pub code: Option<String>,
    pub details: Option<serde_json::Value>,
    pub request_id: Option<String>,
}

/// The fields that an error response body may carry.
#[derive(Debug)]
pub struct ErrorBody {
    pub message: Option<String>,
    pub code: Option<String>,
    pub details: Option<serde_json::Value>,
    pub request_id: Option<String>,
}

/// The error built from a non-retryable response whose body is not JSON:
/// a synthesized message, the status, and the correlation id from the
/// `x-request-id` header if any.
pub open spec fn spec_is_fallback_error(
    e: APIError,
    status: u16,
    header_request_id: Option<String>,
) -> bool {
    &&& e.message@ == "Request failed with status "@ + spec_dec_digits(status as nat)
    &&& e.status == Some(status)
    &&& e.code is None
    &&& e.details is None
    &&& e.request_id == header_request_id
}

/// Builds the error for a non-retryable response from its status, the
/// `x-request-id` header, and the fields its JSON body carried. The body's
/// `requestId` wins over the header; a missing body message falls back to
/// a fixed one.
pub fn api_error_from_parts(
    status: u16,
    header_request_id: Option<String>,
    body: ErrorBody,
) -> (r: APIError)
    ensures
        r.status == Some(status),
        r.message@ == (match body.message {
            Some(m) => m@,
            None => "Request failed"@,
        }),
        r.code == body.code,
        r.details == body.details,
        r.request_id == (if body.request_id is Some {
            body.request_id
        } else {
            header_request_id
        }),
{
    let message = match body.message {
        Some(m) => m,
        None => String::from_str("Request failed"),
    };
    let request_id = match body.request_id {
        Some(rid) => Some(rid),
        None => header_request_id,
    };
    APIError { message, status: Some(status), code: body.code, details: body.details, request_id }
}

fn get_string_field(v: &serde_json::Value, key: &str) -> Option<String> {
    match json_get_cloned(v, key) {
        Some(f) => json_as_string(&f),
        None => None,
    }
}

/// Parses the body of a non-retryable, non-success response into an error.
/// On a JSON body the fields `message`, `code`, `details` and `requestId`
/// are taken from it; otherwise a fallback error is synthesized.
pub fn parse_error(status: u16, header_request_id: Option<String>, body: &str) -> (r: APIError)
    ensures
        r.status == Some(status),
        !spec_json_parses(body@) ==> spec_is_fallback_error(r, status, header_request_id),
{
    match json_from_str(body) {
        Some(v) => {
            let fields = ErrorBody {
                message: get_string_field(&v, "message"),
                code: get_string_field(&v, "code"),
                details: json_get_cloned(&v, "details"),
                request_id: get_string_field(&v, "requestId"),
            };
            api_error_from_parts(status, header_request_id, fields)
        },
        None => {
            let message = String::from_str("Request failed with status ").concat(
                u64_to_dec_string(status as u64).as_str(),
            );
            APIError {
                message,
                status: Some(status),
                code: None,
                details: None,
                request_id: header_request_id,
            }
        },
    }
}

/// The rendering of an error: its message followed by any of the status,
/// code and correlation id it carries, each in its own parenthesized part.
pub open spec fn spec_render(e: APIError) -> Seq<char> {
    e.message@ + (match e.status {
        Some(s) => " (status="@ + spec_dec_digits(s as nat) + ")"@,
        None => Seq::<char>::empty(),
    }) + (match e.code {
        Some(c) => " (code="@ + c@ + ")"@,
        None => Seq::<char>::empty(),
    }) + (match e.request_id {
        Some(rid) => " (request_id="@ + rid@ + ")"@,
        None => Seq::<char>::empty(),
    })
}

impl APIError {
    /// Renders the error as one line of text.
    pub fn render(&self) -> (r: String)
        ensures
            r@ == spec_render(*self),
    {
        let mut out = self.message.clone();
        match &self.status {
            Some(s) => {
                out.append(" (status=");
                out.append(u64_to_dec_string(*s as u64).as_str());
                out.append(")");
            },
            None => {},
        }
        match &self.code {
            Some(c) => {
                out.append(" (code=");
                out.append(c.as_str());
                out.append(")");
            },
            None => {},
        }
        match &self.request_id {
            Some(rid) => {
                out.append(" (request_id=");
                out.append(rid.as_str());
                out.append(")");
            },
            None => {},
        }
        proof {
            assert(out@ =~= spec_render(*self));
        }
        out
    }
}

} // verus!
