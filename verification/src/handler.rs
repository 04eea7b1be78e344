//! The per-connection decision, in one piece: from the method and the
//! outcome of path resolution to the status code, the full header block,
//! and whether file bytes follow. All classification happens here, before
//! anything is written to the connection.

use vstd::prelude::*;

use crate::headers::build_headers;
use crate::headers::headers_text;
use crate::paths::Resolution;
use crate::policy::overridden_status;
use crate::policy::should_send_body;
use crate::policy::wants_body;
use crate::text::str_eq;

verus! {

/// Everything the connection worker still has to do, decided up front:
/// the status, the exact header block to write, and whether the resolved
/// file's bytes are streamed after it.
pub struct ResponsePlan {
    pub status: u16,
    pub headers: String,
    pub send_body: bool,
}

/// Plans the whole response for one request: applies the method override
/// to the resolution's status and composes the headers. `content_len` and
/// `content_type` describe the resolved file and are read only when the
/// status comes out 200.
pub fn plan_response(
    method: &str,
    resolution: &Resolution,
    content_len: u64,
    content_type: &str,
    date: &str,
) -> (r: ResponsePlan)
    ensures
        r.status as int == overridden_status(resolution.status as int, method@),
        r.headers@ == headers_text(r.status as int, content_len as nat, content_type@, date@),
        r.send_body == wants_body(method@, r.status as int),
{
    let status: u16 = if resolution.status == 200 && !(str_eq(method, "GET") || str_eq(
        method,
        "HEAD",
    )) {
        405
    } else {
        resolution.status
    };
    let headers = build_headers(status, content_len, content_type, date);
    let send_body = should_send_body(method, status);
    ResponsePlan { status, headers, send_body }
}

/// Plans the whole response with a Date header read from the clock. The
/// date is whatever the clock said — 29 printable characters — and the
/// rest of the header block is pinned exactly, as in `plan_response`.
pub fn plan_response_now(
    method: &str,
    resolution: &Resolution,
    content_len: u64,
    content_type: &str,
) -> (r: ResponsePlan)
    ensures
        r.status as int == overridden_status(resolution.status as int, method@),
        r.send_body == wants_body(method@, r.status as int),
        exists|d: Seq<char>|
            d.len() == 29 && (forall|i: int| 0 <= i < d.len() ==> 32 <= #[trigger] (d[i] as u32)
                <= 126) && r.headers@ == headers_text(
                r.status as int,
                content_len as nat,
                content_type@,
                d,
            ),
{
    let date = crate::headers::current_http_date();
    let r = plan_response(method, resolution, content_len, content_type, date.as_str());
    proof {
        assert(date@.len() == 29 && (forall|i: int|
            0 <= i < date@.len() ==> 32 <= #[trigger] (date@[i] as u32) <= 126) && r.headers@
            == headers_text(r.status as int, content_len as nat, content_type@, date@));
    }
    r
}

} // verus!
