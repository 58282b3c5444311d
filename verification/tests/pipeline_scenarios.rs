use yourapi::pipeline::{run_request, AttemptOutcome, RunOutcome, TransportEvent};
use yourapi::pipeline::handle_event;
use yourapi::retry::{calculate_backoff, is_retryable_status};

fn response(status: u16, body: &str) -> TransportEvent {
    TransportEvent::Response {
        status,
        retry_after: None,
        request_id: None,
        body: body.to_string(),
    }
}

fn json(s: &str) -> serde_json::Value {
    serde_json::from_str(s).unwrap()
}

#[test]
fn s1_two_retries_then_success() {
    let events = vec![response(503, ""), response(503, ""), response(200, "{\"x\":1}")];
    let report = run_request(2, &events);
    assert_eq!(report.sends, 3);
    assert_eq!(report.sleeps, vec![1, 2]);
    match report.outcome {
        RunOutcome::Finished(Ok(Some(v))) => assert_eq!(v, json("{\"x\":1}")),
        _ => panic!("expected a decoded success"),
    }
}

#[test]
fn s2_budget_exhausted_surfaces_status() {
    let events = vec![response(500, ""), response(500, "")];
    let report = run_request(1, &events);
    assert_eq!(report.sends, 2);
    assert_eq!(report.sleeps, vec![1]);
    match report.outcome {
        RunOutcome::Finished(Err(e)) => {
            assert_eq!(e.status, Some(500));
            assert_eq!(e.message, "Request failed with status 500");
            assert_eq!(e.code, None);
        },
        _ => panic!("expected an error"),
    }
}

#[test]
fn s3_retry_after_hint_is_used_verbatim() {
    let events = vec![
        TransportEvent::Response {
            status: 429,
            retry_after: Some("7".to_string()),
            request_id: None,
            body: "".to_string(),
        },
        response(200, "{}"),
    ];
    let report = run_request(3, &events);
    assert_eq!(report.sleeps, vec![7]);
    assert_eq!(report.sends, 2);
    match report.outcome {
        RunOutcome::Finished(Ok(Some(v))) => assert_eq!(v, json("{}")),
        _ => panic!("expected a decoded success"),
    }
}

#[test]
fn s4_204_is_empty_success_without_decoding() {
    let events = vec![response(204, "")];
    let report = run_request(3, &events);
    assert_eq!(report.sends, 1);
    assert!(report.sleeps.is_empty());
    match report.outcome {
        RunOutcome::Finished(Ok(None)) => {},
        _ => panic!("expected an empty success"),
    }
}

#[test]
fn s5_error_body_fields_win_over_header() {
    let events = vec![TransportEvent::Response {
        status: 400,
        retry_after: None,
        request_id: Some("r2".to_string()),
        body: "{\"message\":\"bad\",\"code\":\"E_BAD\",\"requestId\":\"r1\"}".to_string(),
    }];
    let report = run_request(3, &events);
    assert_eq!(report.sends, 1);
    match report.outcome {
        RunOutcome::Finished(Err(e)) => {
            assert_eq!(e.message, "bad");
            assert_eq!(e.status, Some(400));
            assert_eq!(e.code, Some("E_BAD".to_string()));
            assert_eq!(e.request_id, Some("r1".to_string()));
        },
        _ => panic!("expected an error"),
    }
}

#[test]
fn attempt_budget_is_max_retries_plus_one() {
    let events = vec![
        response(503, ""),
        response(503, ""),
        response(503, ""),
        response(503, ""),
        response(503, ""),
    ];
    let report = run_request(2, &events);
    assert_eq!(report.sends, 3);
    assert_eq!(report.sleeps.len(), 2);
    match report.outcome {
        RunOutcome::Finished(Err(e)) => assert_eq!(e.status, Some(503)),
        _ => panic!("expected an error after the budget"),
    }
}

#[test]
fn zero_retries_means_one_send() {
    let events = vec![response(503, "")];
    let report = run_request(0, &events);
    assert_eq!(report.sends, 1);
    assert!(report.sleeps.is_empty());
    assert!(matches!(report.outcome, RunOutcome::Finished(Err(_))));
}

#[test]
fn transport_failures_are_retried_then_surfaced() {
    let events = vec![
        TransportEvent::Failure { message: "connection reset".to_string() },
        TransportEvent::Failure { message: "connection reset".to_string() },
    ];
    let report = run_request(1, &events);
    assert_eq!(report.sends, 2);
    assert_eq!(report.sleeps, vec![1]);
    match report.outcome {
        RunOutcome::Finished(Err(e)) => {
            assert_eq!(e.message, "Request failed: connection reset");
            assert_eq!(e.code, Some("REQUEST_ERROR".to_string()));
            assert_eq!(e.status, None);
        },
        _ => panic!("expected a transport error"),
    }
}

#[test]
fn non_retryable_status_is_not_retried() {
    let events = vec![response(400, ""), response(200, "{}")];
    let report = run_request(3, &events);
    assert_eq!(report.sends, 1);
    match report.outcome {
        RunOutcome::Finished(Err(e)) => assert_eq!(e.status, Some(400)),
        _ => panic!("expected an error on the first response"),
    }
}

#[test]
fn success_body_that_is_not_json_is_a_parse_error() {
    let events = vec![response(200, "not json")];
    let report = run_request(3, &events);
    match report.outcome {
        RunOutcome::Finished(Err(e)) => {
            assert_eq!(e.message, "Failed to parse response");
            assert_eq!(e.status, Some(200));
            assert_eq!(e.code, Some("PARSE_ERROR".to_string()));
        },
        _ => panic!("expected a parse error"),
    }
}

#[test]
fn script_that_runs_out_reports_it() {
    let events = vec![response(503, "")];
    let report = run_request(5, &events);
    assert!(matches!(report.outcome, RunOutcome::ScriptEnded));
    assert_eq!(report.sends, 1);
    assert_eq!(report.sleeps, vec![1]);
}

#[test]
fn classification_of_each_retryable_status() {
    for s in [429u16, 500, 502, 503, 504] {
        assert!(is_retryable_status(s));
        let out = handle_event(0, 3, &response(s, ""));
        assert!(matches!(out, AttemptOutcome::Retry(_)));
    }
    for s in [400u16, 401, 403, 404, 418, 501, 505, 200, 302] {
        assert!(!is_retryable_status(s));
        let out = handle_event(0, 3, &response(s, ""));
        assert!(!matches!(out, AttemptOutcome::Retry(_)));
    }
}

#[test]
fn backoff_is_exponential_and_capped() {
    assert_eq!(calculate_backoff(0, None), 1);
    assert_eq!(calculate_backoff(1, None), 2);
    assert_eq!(calculate_backoff(2, None), 4);
    assert_eq!(calculate_backoff(3, None), 8);
    assert_eq!(calculate_backoff(10, None), 8);
    assert_eq!(calculate_backoff(0, Some(30)), 30);
    assert_eq!(calculate_backoff(5, Some(0)), 0);
}

#[test]
fn bad_retry_after_falls_back_to_exponential() {
    let events = vec![
        TransportEvent::Response {
            status: 503,
            retry_after: Some("soon".to_string()),
            request_id: None,
            body: "".to_string(),
        },
        response(200, "{}"),
    ];
    let report = run_request(3, &events);
    assert_eq!(report.sleeps, vec![1]);
}

#[test]
fn fallback_error_takes_request_id_from_header() {
    let events = vec![TransportEvent::Response {
        status: 400,
        retry_after: None,
        request_id: Some("r2".to_string()),
        body: "not json".to_string(),
    }];
    let report = run_request(0, &events);
    match report.outcome {
        RunOutcome::Finished(Err(e)) => {
            assert_eq!(e.message, "Request failed with status 400");
            assert_eq!(e.request_id, Some("r2".to_string()));
            assert_eq!(e.code, None);
            assert_eq!(e.details, None);
        },
        _ => panic!("expected a fallback error"),
    }
}

#[test]
fn error_body_without_message_falls_back() {
    let events = vec![response(403, "{\"code\":\"E_NO\",\"details\":{\"k\":2}}")];
    let report = run_request(0, &events);
    match report.outcome {
        RunOutcome::Finished(Err(e)) => {
            assert_eq!(e.message, "Request failed");
            assert_eq!(e.code, Some("E_NO".to_string()));
            assert_eq!(e.details, Some(json("{\"k\":2}")));
            assert_eq!(e.request_id, None);
        },
        _ => panic!("expected an error"),
    }
}
