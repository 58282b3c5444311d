//! Cursor pagination: query composition, page decoding, accumulation, and
//! the traversal loop over a pre-recorded sequence of page responses.
use vstd::prelude::*;
use vstd::string::*;

use crate::error::APIError;
use crate::json::{json_as_array, json_as_bool, json_as_string, json_get_cloned, json_is_null};
use crate::text::str_contains_char;

verus! {

/// Cursor-based paginated response.
#[derive(Debug)]
pub struct CursorPaginatedResponse<T> {
    /// The items of this page, in order.
    pub items: Vec<T>,
    /// The cursor of the next page, absent on the last page.
    pub next_cursor: Option<String>,
    /// Whether the server has more pages.
    pub has_more: bool,
}

/// Page-based paginated response: a passive decode target, not used by the
/// pipeline itself.
#[derive(Debug)]
pub struct PagePaginatedResponse<T> {
    pub items: Vec<T>,
    pub page: u32,
    pub per_page: u32,
    pub total_pages: u32,
    pub total_items: u32,
}

/// The path of a page request: `cursor=<c>` is appended with `&` when the
/// path already has a query string, and with `?` otherwise.
pub open spec fn spec_cursor_path(path: Seq<char>, cursor: Seq<char>) -> Seq<char> {
    if path.contains('?') {
        path + "&cursor="@ + cursor
    } else {
        path + "?cursor="@ + cursor
    }
}

/// Appends the cursor to a path, after `&` when the path already has a
/// query string and after `?` otherwise.
pub fn cursor_path(path: &str, cursor: &str) -> (r: String)
    ensures
        r@ == spec_cursor_path(path@, cursor@),
{
    if str_contains_char(path, '?') {
        String::from_str(path).concat("&cursor=").concat(cursor)
    } else {
        String::from_str(path).concat("?cursor=").concat(cursor)
    }
}

/// The path of the next page request: the path itself before the first
/// page, then the path with the cursor appended.
pub fn paginate_next_path(path: &str, cursor: &Option<String>) -> (r: String)
    ensures
        match cursor {
            Some(c) => r@ == spec_cursor_path(path@, c@),
            None => r@ == path@,
        },
{
    match cursor {
        Some(c) => cursor_path(path, c.as_str()),
        None => String::from_str(path),
    }
}

/// What a page body carried in `nextCursor`.
pub enum RawCursor {
    /// The member is absent.
    Missing,
    /// The member is JSON `null`.
    Null,
    /// The member is a string.
    Text(String),
    /// The member is some other JSON value.
    Other,
}

/// The error surfaced when a page body does not have the paginated shape.
pub open spec fn spec_is_paginate_parse_error(e: APIError) -> bool {
    &&& e.message@ == "Failed to parse paginated response"@
    &&& e.status is None
    &&& e.code matches Some(c) && c@ == "PARSE_ERROR"@
    &&& e.details is None
    &&& e.request_id is None
}

fn paginate_parse_error() -> (e: APIError)
    ensures
        spec_is_paginate_parse_error(e),
{
    APIError {
        message: String::from_str("Failed to parse paginated response"),
        status: None,
        code: Some(String::from_str("PARSE_ERROR")),
        details: None,
        request_id: None,
    }
}

/// Assembles a page from its raw members: `items` must be an array and
/// `hasMore` a boolean; `nextCursor` may be absent, `null` or a string.
/// Anything else is a decode failure.
pub fn assemble_cursor_page(
    items: Option<Vec<serde_json::Value>>,
    next_cursor: RawCursor,
    has_more: Option<bool>,
) -> (r: Result<CursorPaginatedResponse<serde_json::Value>, APIError>)
    ensures
        r is Ok <==> (items is Some && has_more is Some && !(next_cursor is Other)),
        r matches Ok(p) ==> {
            &&& (items matches Some(v) && p.items == v)
            &&& (has_more matches Some(h) && p.has_more == h)
            &&& p.next_cursor == (match next_cursor {
                RawCursor::Text(c) => Some(c),
                _ => None::<String>,
            })
        },
        r matches Err(e) ==> spec_is_paginate_parse_error(e),
{
    let its = match items {
        Some(v) => v,
        None => {
            return Err(paginate_parse_error());
        },
    };
    let hm = match has_more {
        Some(h) => h,
        None => {
            return Err(paginate_parse_error());
        },
    };
    let cursor = match next_cursor {
        RawCursor::Missing => None,
        RawCursor::Null => None,
        RawCursor::Text(c) => Some(c),
        RawCursor::Other => {
            return Err(paginate_parse_error());
        },
    };
    Ok(CursorPaginatedResponse { items: its, next_cursor: cursor, has_more: hm })
}

fn extract_items(v: &serde_json::Value) -> Option<Vec<serde_json::Value>> {
    match json_get_cloned(v, "items") {
        Some(arr) => json_as_array(&arr),
        None => None,
    }
}

fn extract_cursor(v: &serde_json::Value) -> RawCursor {
    match json_get_cloned(v, "nextCursor") {
        None => RawCursor::Missing,
        Some(c) => {
            if json_is_null(&c) {
                RawCursor::Null
            } else {
                match json_as_string(&c) {
                    Some(s) => RawCursor::Text(s),
                    None => RawCursor::Other,
                }
            }
        },
    }
}

fn extract_has_more(v: &serde_json::Value) -> Option<bool> {
    match json_get_cloned(v, "hasMore") {
        Some(h) => json_as_bool(&h),
        None => None,
    }
}

/// Decodes one page body: its `items` array, `nextCursor` and `hasMore`
/// members, yielding a parse error when the shape is wrong.
pub fn decode_cursor_page(v: &serde_json::Value) -> (r: Result<
    CursorPaginatedResponse<serde_json::Value>,
    APIError,
>)
    ensures
        r matches Err(e) ==> spec_is_paginate_parse_error(e),
{
    assemble_cursor_page(extract_items(v), extract_cursor(v), extract_has_more(v))
}

/// Absorbs one decoded page: appends its items to the accumulator and
/// returns the next cursor, and whether the traversal goes on — it does
/// exactly when the page says there is more and named a cursor.
pub fn paginate_absorb(
    acc: &mut Vec<serde_json::Value>,
    page: CursorPaginatedResponse<serde_json::Value>,
) -> (r: (Option<String>, bool))
    ensures
        final(acc)@ == old(acc)@ + page.items@,
        r.0 == page.next_cursor,
        r.1 == (page.has_more && page.next_cursor is Some),
{
    let CursorPaginatedResponse { mut items, next_cursor, has_more } = page;
    acc.append(&mut items);
    let go_on = has_more && next_cursor.is_some();
    (next_cursor, go_on)
}

/// What the GET of one page returned, after the body was decoded: an
/// empty success, a decoded page, or an error (the pipeline's own, or the
/// parse error of a body that was not a page).
pub enum PageEvent {
    /// An empty success (204): the traversal stops.
    Empty,
    /// A decoded page.
    Page(CursorPaginatedResponse<serde_json::Value>),
    /// An error: the traversal stops and surfaces it unchanged.
    Error(APIError),
}

/// Whether the traversal goes on after this page: only a decoded page that
/// says there is more and names a cursor.
pub open spec fn spec_page_continues(ev: PageEvent) -> bool {
    ev matches PageEvent::Page(p) && p.has_more && p.next_cursor is Some
}

/// Whether every recorded page lets the traversal go on.
pub open spec fn spec_all_continue(pages: Seq<PageEvent>) -> bool {
    forall|i: int| 0 <= i < pages.len() ==> spec_page_continues(#[trigger] pages[i])
}

/// How many pages the traversal consumes: every page up to and including
/// the first one that does not let it go on — one GET each, none beyond.
pub open spec fn spec_pages_consumed(pages: Seq<PageEvent>) -> int
    decreases pages.len(),
{
    if pages.len() == 0 {
        0
    } else if spec_page_continues(pages[0]) {
        1 + spec_pages_consumed(pages.skip(1))
    } else {
        1
    }
}

/// The items of the first `n` pages, concatenated in order.
pub open spec fn spec_items_prefix(pages: Seq<PageEvent>, n: int) -> Seq<serde_json::Value>
    decreases n,
{
    if n <= 0 {
        Seq::empty()
    } else {
        spec_items_prefix(pages, n - 1) + (match pages[n - 1] {
            PageEvent::Page(p) => p.items@,
            _ => Seq::<serde_json::Value>::empty(),
        })
    }
}

/// Consuming a run of continuing pages splits the count.
proof fn lemma_pages_consumed_skip(pages: Seq<PageEvent>, j: int)
    requires
        0 <= j <= pages.len(),
        forall|i: int| 0 <= i < j ==> spec_page_continues(#[trigger] pages[i]),
    ensures
        spec_pages_consumed(pages) == j + spec_pages_consumed(pages.skip(j)),
    decreases j,
{
    if j == 0 {
        assert(pages.skip(0) =~= pages);
    } else {
        assert forall|i: int| 0 <= i < j - 1 implies spec_page_continues(
            #[trigger] pages.skip(1)[i],
        ) by {
            assert(pages.skip(1)[i] == pages[i + 1]);
        }
        lemma_pages_consumed_skip(pages.skip(1), j - 1);
        assert(pages.skip(1).skip(j - 1) =~= pages.skip(j));
    }
}

/// How a traversal ended.
pub enum PaginateOutcome {
    /// The traversal returned: all items in order, or the first error.
    Finished(Result<Vec<serde_json::Value>, APIError>),
    /// The recorded pages ran out while the traversal would have gone on.
    ScriptEnded,
}

/// The trace of one traversal: how it ended, and the path of each page
/// request, in order.
pub struct PaginateReport {
    pub outcome: PaginateOutcome,
    pub requests: Vec<String>,
}

/// Runs the whole cursor traversal over a pre-recorded sequence of decoded
/// page responses: one GET per page and none past the first page that ends
/// the traversal; the first request at the path itself and each later one
/// with the preceding page's cursor appended; on the terminating page the
/// in-order concatenation of every item seen, an empty success keeping
/// only the items before it, and an error surfaced unchanged. The recorded
/// pages run out only while every one of them lets the traversal go on.
pub fn run_paginate(path: &str, pages: Vec<PageEvent>) -> (r: PaginateReport)
    ensures
        r.requests@.len() == spec_pages_consumed(pages@),
        r.requests@.len() <= pages@.len(),
        r.requests@.len() > 0 ==> r.requests@[0]@ == path@,
        forall|i: int|
            1 <= i < r.requests@.len() ==> (#[trigger] pages@[i - 1] matches PageEvent::Page(p)
                && p.next_cursor matches Some(c) && r.requests@[i]@ == spec_cursor_path(
                path@,
                c@,
            )),
        forall|i: int| 0 <= i < r.requests@.len() - 1 ==> spec_page_continues(#[trigger] pages@[i]),
        r.outcome is ScriptEnded <==> spec_all_continue(pages@),
        r.outcome is Finished ==> r.requests@.len() >= 1,
        r.outcome matches PaginateOutcome::Finished(res) ==> ({
            let k = spec_pages_consumed(pages@);
            match pages@[k - 1] {
                PageEvent::Empty => res matches Ok(v) && v@ == spec_items_prefix(pages@, k - 1),
                PageEvent::Page(p) => res matches Ok(v) && v@ == spec_items_prefix(pages@, k),
                PageEvent::Error(e) => res == Result::<Vec<serde_json::Value>, APIError>::Err(e),
            }
        }),
{
    let ghost pgs = pages@;
    let mut rest = pages;
    let mut acc: Vec<serde_json::Value> = Vec::new();
    let mut cursor: Option<String> = None;
    let mut requests: Vec<String> = Vec::new();
    let mut idx: usize = 0;
    loop
        invariant
            pgs == pages@,
            idx == requests@.len(),
            idx <= pgs.len(),
            rest@ == pgs.skip(idx as int),
            forall|i: int| 0 <= i < idx ==> spec_page_continues(#[trigger] pgs[i]),
            acc@ == spec_items_prefix(pgs, idx as int),
            idx == 0 ==> cursor is None,
            idx > 0 ==> (pgs[idx - 1] matches PageEvent::Page(p) && cursor == p.next_cursor
                && cursor is Some),
            idx > 0 ==> requests@[0]@ == path@,
            forall|i: int|
                1 <= i < idx ==> (#[trigger] pgs[i - 1] matches PageEvent::Page(p)
                    && p.next_cursor matches Some(c) && requests@[i]@ == spec_cursor_path(
                    path@,
                    c@,
                )),
        decreases pgs.len() - idx,
    {
        if rest.len() == 0 {
            proof {
                lemma_pages_consumed_skip(pgs, idx as int);
            }
            return PaginateReport { outcome: PaginateOutcome::ScriptEnded, requests };
        }
        let current_path = paginate_next_path(path, &cursor);
        requests.push(current_path);
        let ev = rest.remove(0);
        proof {
            assert(ev == pgs.skip(idx as int)[0]);
            assert(ev == pgs[idx as int]);
            assert(rest@ =~= pgs.skip(idx + 1));
            lemma_pages_consumed_skip(pgs, idx as int);
        }
        match ev {
            PageEvent::Empty => {
                return PaginateReport { outcome: PaginateOutcome::Finished(Ok(acc)), requests };
            },
            PageEvent::Error(e) => {
                return PaginateReport { outcome: PaginateOutcome::Finished(Err(e)), requests };
            },
            PageEvent::Page(page) => {
                let ghost gp = page;
                let step = paginate_absorb(&mut acc, page);
                cursor = step.0;
                let go_on = step.1;
                proof {
                    assert(pgs[idx as int] == PageEvent::Page(gp));
                    assert(spec_items_prefix(pgs, idx + 1) == spec_items_prefix(pgs, idx as int)
                        + gp.items@);
                }
                if !go_on {
                    return PaginateReport {
                        outcome: PaginateOutcome::Finished(Ok(acc)),
                        requests,
                    };
                }
                idx = requests.len();
            },
        }
    }
}

} // verus!
