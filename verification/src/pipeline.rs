//! The request pipeline's state machine: the classification of one
//! transport outcome, and the retry loop over a sequence of outcomes.
//!
//! The transport itself is an outside capability: a driver performs each
//! send and each sleep, and hands the outcome back as a `TransportEvent`.
//! `run_request` executes the whole loop over a pre-recorded sequence of
//! outcomes and is the reference model of a request.
use vstd::prelude::*;
use vstd::string::*;

use crate::error::{parse_error, spec_is_fallback_error, APIError};
use crate::json::{json_from_str, spec_json_parses};
use crate::retry::{calculate_backoff, is_retryable_status, spec_backoff_secs,
    spec_is_retryable_status};
use crate::text::{parse_u64, spec_parse_u64};

verus! {

/// What one attempt's transport call produced: a response, or a transport
/// failure (a connection error or a timeout).
pub enum TransportEvent {
    Response {
        /// The HTTP status.
        status: u16,
        /// The `Retry-After` header, verbatim, if present.
        retry_after: Option<String>,
        /// The `x-request-id` header, if present.
        request_id: Option<String>,
        /// The response body text (empty when there was none).
        body: String,
    },
    Failure {
        /// The transport's description of what went wrong.
        message: String,
    },
}

/// What the pipeline decides after one attempt: finish with a success,
/// sleep and retry, or finish with an error.
pub enum AttemptOutcome {
    /// The request succeeded: the decoded body, or nothing on 204.
    Success(Option<serde_json::Value>),
    /// Sleep this many seconds, then send again.
    Retry(u64),
    /// The request failed; no further attempt is made.
    Fail(APIError),
}

/// Whether a successful HTTP status was returned.
pub open spec fn spec_is_success_status(status: u16) -> bool {
    200 <= status <= 299
}

/// Whether the pipeline retries after this event: a retryable status or a
/// transport failure, while attempts remain.
pub open spec fn spec_event_retries(ev: TransportEvent, attempt: u32, max_retries: u32) -> bool {
    attempt < max_retries && match ev {
        TransportEvent::Response { status, .. } => spec_is_retryable_status(status),
        TransportEvent::Failure { .. } => true,
    }
}

/// The `Retry-After` hint of an event: the header parsed as integer
/// seconds, if it parses.
pub open spec fn spec_event_retry_after(ev: TransportEvent) -> Option<u64> {
    match ev {
        TransportEvent::Response { retry_after: Some(h), .. } => spec_parse_u64(h@),
        _ => None,
    }
}

/// The sleep the pipeline performs before the attempt after this one.
pub open spec fn spec_event_sleep(ev: TransportEvent, attempt: u32) -> u64 {
    spec_backoff_secs(attempt, spec_event_retry_after(ev))
}

/// The error surfaced when the transport fails on the last attempt.
pub open spec fn spec_is_transport_error(e: APIError, message: Seq<char>) -> bool {
    &&& e.message@ == "Request failed: "@ + message
    &&& e.status is None
    &&& e.code matches Some(c) && c@ == "REQUEST_ERROR"@
    &&& e.details is None
    &&& e.request_id is None
}

/// The error surfaced when a success body is not JSON.
pub open spec fn spec_is_parse_failure_error(e: APIError, status: u16) -> bool {
    &&& e.message@ == "Failed to parse response"@
    &&& e.status == Some(status)
    &&& e.code matches Some(c) && c@ == "PARSE_ERROR"@
    &&& e.details is None
    &&& e.request_id is None
}

/// Everything the pipeline guarantees of the decision it takes on one
/// event, at a given zero-based attempt under a given retry ceiling.
pub open spec fn spec_attempt_post(
    ev: TransportEvent,
    attempt: u32,
    max_retries: u32,
    r: AttemptOutcome,
) -> bool {
    &&& (r is Retry <==> spec_event_retries(ev, attempt, max_retries))
    &&& (spec_event_retries(ev, attempt, max_retries) ==> r == AttemptOutcome::Retry(
        spec_event_sleep(ev, attempt),
    ))
    &&& match ev {
        TransportEvent::Response { status, retry_after, request_id, body } => {
            &&& (status == 204 ==> r == AttemptOutcome::Success(None::<serde_json::Value>))
            &&& (spec_is_success_status(status) && status != 204 && spec_json_parses(body@)
                ==> (r matches AttemptOutcome::Success(b) && b is Some))
            &&& (spec_is_success_status(status) && status != 204 && !spec_json_parses(body@)
                ==> (r matches AttemptOutcome::Fail(e) && spec_is_parse_failure_error(e, status)))
            &&& (!spec_is_success_status(status) && !spec_event_retries(ev, attempt, max_retries)
                ==> (r matches AttemptOutcome::Fail(e) && e.status == Some(status) && (
                !spec_json_parses(body@) ==> spec_is_fallback_error(e, status, request_id))))
        },
        TransportEvent::Failure { message } => {
            !spec_event_retries(ev, attempt, max_retries) ==> (r matches AttemptOutcome::Fail(e)
                && spec_is_transport_error(e, message@))
        },
    }
}

fn clone_opt_string(o: &Option<String>) -> (r: Option<String>)
    ensures
        r == *o,
{
    match o {
        Some(s) => Some(s.clone()),
        None => None,
    }
}

/// Classifies one transport outcome: empty success on 204, decoded body on
/// any other success, a backoff-and-retry on a retryable status or a
/// transport failure while attempts remain, and a structured error
/// otherwise.
pub fn handle_event(attempt: u32, max_retries: u32, event: &TransportEvent) -> (r: AttemptOutcome)
    ensures
        spec_attempt_post(*event, attempt, max_retries, r),
{
    match event {
        TransportEvent::Response { status, retry_after, request_id, body } => {
            let s = *status;
            if 200 <= s && s <= 299 {
                if s == 204 {
                    return AttemptOutcome::Success(None);
                }
                match json_from_str(body.as_str()) {
                    Some(v) => AttemptOutcome::Success(Some(v)),
                    None => AttemptOutcome::Fail(
                        APIError {
                            message: String::from_str("Failed to parse response"),
                            status: Some(s),
                            code: Some(String::from_str("PARSE_ERROR")),
                            details: None,
                            request_id: None,
                        },
                    ),
                }
            } else if is_retryable_status(s) && attempt < max_retries {
                let hint = match retry_after {
                    Some(h) => parse_u64(h.as_str()),
                    None => None,
                };
                AttemptOutcome::Retry(calculate_backoff(attempt, hint))
            } else {
                AttemptOutcome::Fail(parse_error(s, clone_opt_string(request_id), body.as_str()))
            }
        },
        TransportEvent::Failure { message } => {
            if attempt < max_retries {
                AttemptOutcome::Retry(calculate_backoff(attempt, None))
            } else {
                AttemptOutcome::Fail(
                    APIError {
                        message: String::from_str("Request failed: ").concat(message.as_str()),
                        status: None,
                        code: Some(String::from_str("REQUEST_ERROR")),
                        details: None,
                        request_id: None,
                    },
                )
            }
        },
    }
}

/// How a finished run ended, seen as the outcome of its last attempt.
pub open spec fn spec_finish_post(
    res: Result<Option<serde_json::Value>, APIError>,
    ev: TransportEvent,
    attempt: u32,
    max_retries: u32,
) -> bool {
    spec_attempt_post(
        ev,
        attempt,
        max_retries,
        match res {
            Ok(b) => AttemptOutcome::Success(b),
            Err(e) => AttemptOutcome::Fail(e),
        },
    )
}

/// How a run of the pipeline ended.
pub enum RunOutcome {
    /// The pipeline returned: a decoded body, an empty success, or an error.
    Finished(Result<Option<serde_json::Value>, APIError>),
    /// The recorded outcomes ran out while the pipeline would have retried.
    ScriptEnded,
}

/// The trace of one run: how it ended, the sleeps performed between
/// attempts, in order, and how many sends were made.
pub struct RunReport {
    pub outcome: RunOutcome,
    pub sleeps: Vec<u64>,
    pub sends: usize,
}

/// Runs the whole request pipeline over a pre-recorded sequence of
/// transport outcomes, one per attempt: at most `max_retries + 1` sends,
/// a backoff sleep between attempts, and the classification of the last
/// attempt as the result.
pub fn run_request(max_retries: u32, events: &Vec<TransportEvent>) -> (r: RunReport)
    ensures
        r.sends <= max_retries as int + 1,
        r.sends <= events@.len(),
        r.sleeps@.len() <= r.sends,
        forall|i: int| 0 <= i < r.sleeps@.len() ==> spec_event_retries(
            #[trigger] events@[i],
            i as u32,
            max_retries,
        ) && r.sleeps@[i] == spec_event_sleep(events@[i], i as u32),
        r.outcome is ScriptEnded ==> r.sends == events@.len() && r.sleeps@.len() == r.sends,
        r.outcome matches RunOutcome::Finished(res) ==> r.sends >= 1 && r.sleeps@.len() == r.sends
            - 1 && spec_finish_post(res, events@[r.sends - 1], (r.sends - 1) as u32, max_retries),
{
    let mut sleeps: Vec<u64> = Vec::new();
    let mut attempt: u32 = 0;
    while attempt <= max_retries
        invariant
            attempt <= max_retries,
            attempt as int == sleeps@.len(),
            sleeps@.len() <= events@.len(),
            forall|i: int| 0 <= i < sleeps@.len() ==> spec_event_retries(
                #[trigger] events@[i],
                i as u32,
                max_retries,
            ) && sleeps@[i] == spec_event_sleep(events@[i], i as u32),
        decreases max_retries - attempt,
    {
        if attempt as usize >= events.len() {
            let sends = events.len();
            return RunReport { outcome: RunOutcome::ScriptEnded, sleeps, sends };
        }
        let outcome = handle_event(attempt, max_retries, &events[attempt as usize]);
        match outcome {
            AttemptOutcome::Retry(secs) => {
                sleeps.push(secs);
                attempt = attempt + 1;
            },
            AttemptOutcome::Success(body) => {
                return RunReport {
                    outcome: RunOutcome::Finished(Ok(body)),
                    sleeps,
                    sends: attempt as usize + 1,
                };
            },
            AttemptOutcome::Fail(e) => {
                return RunReport {
                    outcome: RunOutcome::Finished(Err(e)),
                    sleeps,
                    sends: attempt as usize + 1,
                };
            },
        }
    }
    // Defensive guard: the classification above always returns within the
    // attempt budget, so this exit cannot be taken.
    RunReport {
        outcome: RunOutcome::Finished(
            Err(
                APIError {
                    message: String::from_str("Max retries exceeded"),
                    status: None,
                    code: Some(String::from_str("MAX_RETRIES_EXCEEDED")),
                    details: None,
                    request_id: None,
                },
            ),
        ),
        sleeps,
        sends: 0,
    }
}

} // verus!
