use yourapi::error::APIError;
use yourapi::paginate::{
    cursor_path, decode_cursor_page, paginate_next_path, run_paginate, PageEvent, PaginateOutcome,
};

fn json(s: &str) -> serde_json::Value {
    serde_json::from_str(s).unwrap()
}

fn page(s: &str) -> PageEvent {
    PageEvent::Page(decode_cursor_page(&json(s)).unwrap())
}

#[test]
fn cursor_appended_with_question_mark_or_ampersand() {
    assert_eq!(cursor_path("/things", "c1"), "/things?cursor=c1");
    assert_eq!(cursor_path("/things?a=b", "c1"), "/things?a=b&cursor=c1");
    assert_eq!(paginate_next_path("/things", &None), "/things");
    assert_eq!(paginate_next_path("/things", &Some("c9".to_string())), "/things?cursor=c9");
}

#[test]
fn s6_two_pages_in_order() {
    let pages = vec![
        page("{\"items\":[1,2],\"nextCursor\":\"c1\",\"hasMore\":true}"),
        page("{\"items\":[3],\"nextCursor\":null,\"hasMore\":false}"),
    ];
    let report = run_paginate("/things", pages);
    assert_eq!(report.requests, vec!["/things".to_string(), "/things?cursor=c1".to_string()]);
    match report.outcome {
        PaginateOutcome::Finished(Ok(items)) => {
            assert_eq!(items, vec![json("1"), json("2"), json("3")]);
        },
        _ => panic!("expected all items"),
    }
}

#[test]
fn s6_with_existing_query_uses_ampersand() {
    let pages = vec![
        page("{\"items\":[1,2],\"nextCursor\":\"c1\",\"hasMore\":true}"),
        page("{\"items\":[3],\"nextCursor\":null,\"hasMore\":false}"),
    ];
    let report = run_paginate("/things?a=b", pages);
    assert_eq!(
        report.requests,
        vec!["/things?a=b".to_string(), "/things?a=b&cursor=c1".to_string()],
    );
}

#[test]
fn stops_when_has_more_is_false_even_with_cursor() {
    let pages = vec![
        page("{\"items\":[1],\"nextCursor\":\"c1\",\"hasMore\":false}"),
        page("{\"items\":[2],\"nextCursor\":null,\"hasMore\":false}"),
    ];
    let report = run_paginate("/x", pages);
    assert_eq!(report.requests.len(), 1);
    match report.outcome {
        PaginateOutcome::Finished(Ok(items)) => assert_eq!(items, vec![json("1")]),
        _ => panic!("expected one page of items"),
    }
}

#[test]
fn stops_when_cursor_is_null_even_with_has_more() {
    let pages = vec![
        page("{\"items\":[1],\"nextCursor\":null,\"hasMore\":true}"),
        page("{\"items\":[2],\"nextCursor\":null,\"hasMore\":false}"),
    ];
    let report = run_paginate("/x", pages);
    assert_eq!(report.requests.len(), 1);
    match report.outcome {
        PaginateOutcome::Finished(Ok(items)) => assert_eq!(items, vec![json("1")]),
        _ => panic!("expected one page of items"),
    }
}

#[test]
fn missing_cursor_member_ends_traversal() {
    let pages = vec![page("{\"items\":[1],\"hasMore\":true}")];
    let report = run_paginate("/x", pages);
    match report.outcome {
        PaginateOutcome::Finished(Ok(items)) => assert_eq!(items, vec![json("1")]),
        _ => panic!("expected one page of items"),
    }
}

#[test]
fn empty_success_ends_traversal() {
    let pages = vec![
        page("{\"items\":[1],\"nextCursor\":\"c1\",\"hasMore\":true}"),
        PageEvent::Empty,
    ];
    let report = run_paginate("/x", pages);
    assert_eq!(report.requests.len(), 2);
    match report.outcome {
        PaginateOutcome::Finished(Ok(items)) => assert_eq!(items, vec![json("1")]),
        _ => panic!("expected the items accumulated so far"),
    }
}

#[test]
fn lone_empty_success_yields_no_items() {
    let report = run_paginate("/x", vec![PageEvent::Empty]);
    assert_eq!(report.requests, vec!["/x".to_string()]);
    match report.outcome {
        PaginateOutcome::Finished(Ok(items)) => assert!(items.is_empty()),
        _ => panic!("expected an empty success"),
    }
}

#[test]
fn malformed_page_is_a_parse_error() {
    for body in [
        "5",
        "{\"nextCursor\":null,\"hasMore\":false}",
        "{\"items\":[1],\"hasMore\":\"yes\"}",
        "{\"items\":[1]}",
        "{\"items\":{},\"hasMore\":false}",
        "{\"items\":[1],\"nextCursor\":7,\"hasMore\":false}",
    ] {
        let e = decode_cursor_page(&json(body)).unwrap_err();
        assert_eq!(e.message, "Failed to parse paginated response");
        assert_eq!(e.code, Some("PARSE_ERROR".to_string()));
        assert_eq!(e.status, None);
    }
}

#[test]
fn decode_failure_stops_the_traversal() {
    // The driver decodes each page and hands a decode failure on as an
    // error event; no page after it is requested.
    let e = decode_cursor_page(&json("5")).unwrap_err();
    let pages = vec![
        page("{\"items\":[1],\"nextCursor\":\"c1\",\"hasMore\":true}"),
        PageEvent::Error(e),
        page("{\"items\":[2],\"nextCursor\":null,\"hasMore\":false}"),
    ];
    let report = run_paginate("/x", pages);
    assert_eq!(report.requests.len(), 2);
    match report.outcome {
        PaginateOutcome::Finished(Err(e)) => {
            assert_eq!(e.message, "Failed to parse paginated response");
            assert_eq!(e.code, Some("PARSE_ERROR".to_string()));
        },
        _ => panic!("expected the parse error surfaced"),
    }
}

#[test]
fn decode_accepts_a_proper_page() {
    let v = json("{\"items\":[true,null],\"nextCursor\":\"n\",\"hasMore\":true}");
    let page = decode_cursor_page(&v).unwrap();
    assert_eq!(page.items, vec![json("true"), json("null")]);
    assert_eq!(page.next_cursor, Some("n".to_string()));
    assert!(page.has_more);
}

#[test]
fn first_error_is_surfaced_unchanged() {
    let pages = vec![
        page("{\"items\":[1],\"nextCursor\":\"c1\",\"hasMore\":true}"),
        PageEvent::Error(APIError {
            message: "boom".to_string(),
            status: Some(500),
            code: None,
            details: None,
            request_id: Some("rid".to_string()),
        }),
        page("{\"items\":[2],\"nextCursor\":null,\"hasMore\":false}"),
    ];
    let report = run_paginate("/x", pages);
    assert_eq!(report.requests.len(), 2);
    match report.outcome {
        PaginateOutcome::Finished(Err(e)) => {
            assert_eq!(e.message, "boom");
            assert_eq!(e.status, Some(500));
            assert_eq!(e.request_id, Some("rid".to_string()));
        },
        _ => panic!("expected the error surfaced"),
    }
}

#[test]
fn paginate_script_that_runs_out_reports_it() {
    let pages = vec![page("{\"items\":[1],\"nextCursor\":\"c1\",\"hasMore\":true}")];
    let report = run_paginate("/x", pages);
    assert!(matches!(report.outcome, PaginateOutcome::ScriptEnded));
    assert_eq!(report.requests.len(), 1);
}
