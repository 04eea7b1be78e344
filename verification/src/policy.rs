//! Method and status policy: which status a lookup yields, when the
//! method override to 405 applies, when a body is streamed, and the
//! reason phrase for each status code.

use vstd::prelude::*;
use vstd::string::StringExecFns;

use crate::text::str_eq;

verus! {

/// The status of path resolution alone, from the three facts the
/// filesystem reports: whether the joined path was a directory (an index
/// lookup), whether the candidate exists, and whether its canonical form
/// lies inside the root.
pub open spec fn resolved_status(is_dir: bool, exists: bool, contained: bool) -> int {
    if !exists {
        if is_dir {
            403
        } else {
            404
        }
    } else if !contained {
        403
    } else {
        200
    }
}

/// Only GET and HEAD are served.
pub open spec fn method_allowed(m: Seq<char>) -> bool {
    m == "GET"@ || m == "HEAD"@
}

/// The method override on a resolution's status: 405 when resolution
/// succeeded but the method is not permitted, the resolution's own status
/// otherwise.
pub open spec fn overridden_status(resolved: int, m: Seq<char>) -> int {
    if resolved == 200 && !method_allowed(m) {
        405
    } else {
        resolved
    }
}

/// The status finally answered for a request, from the method and the
/// three filesystem facts.
pub open spec fn final_status(m: Seq<char>, is_dir: bool, exists: bool, contained: bool) -> int {
    overridden_status(resolved_status(is_dir, exists, contained), m)
}

/// File bytes are streamed only for a GET that resolved to 200; HEAD and
/// every error status answer with headers alone.
pub open spec fn wants_body(m: Seq<char>, status: int) -> bool {
    m == "GET"@ && status == 200
}

/// Decides the status code for a request, given the method and the three
/// filesystem facts about the candidate path.
pub fn decide_status(method: &str, is_dir: bool, exists: bool, contained: bool) -> (r: u16)
    ensures
        r as int == final_status(method@, is_dir, exists, contained),
{
    let code: u16 = if !exists {
        if is_dir {
            403
        } else {
            404
        }
    } else if !contained {
        403
    } else {
        200
    };
    if code == 200 && !(str_eq(method, "GET") || str_eq(method, "HEAD")) {
        405
    } else {
        code
    }
}

/// Whether a body follows the headers.
pub fn should_send_body(method: &str, status: u16) -> (r: bool)
    ensures
        r == wants_body(method@, status as int),
{
    str_eq(method, "GET") && status == 200
}

/// The reason phrase of each status code this server answers with; the
/// fallback phrase is defensive and unreachable in correct operation.
pub open spec fn reason_spec(c: int) -> Seq<char> {
    if c == 200 {
        "OK"@
    } else if c == 404 {
        "Not Found"@
    } else if c == 403 {
        "Forbidden"@
    } else if c == 405 {
        "Method Not Allowed"@
    } else {
        "Unknown Code"@
    }
}

/// The reason phrase for a status code.
pub fn reason_from_code(code: i32) -> (r: String)
    ensures
        r@ == reason_spec(code as int),
{
    if code == 200 {
        String::from_str("OK")
    } else if code == 404 {
        String::from_str("Not Found")
    } else if code == 403 {
        String::from_str("Forbidden")
    } else if code == 405 {
        String::from_str("Method Not Allowed")
    } else {
        String::from_str("Unknown Code")
    }
}

/// A path whose canonical form lies outside the root — through `..`
/// segments or a symlink pointing out — is answered 403, never 200 and
/// never 404, whatever the method, whenever the candidate exists at all.
pub proof fn law_escape_is_forbidden(
    m: Seq<char>,
    is_dir: bool,
    root: Seq<char>,
    canonical: Seq<char>,
)
    requires
        !crate::paths::contained_in(root, canonical),
    ensures
        final_status(m, is_dir, true, crate::paths::contained_in(root, canonical)) == 403,
{
}

/// A directory request without an index file present is answered 403, not
/// 404: the directory itself exists, and no listing is ever exposed.
pub proof fn law_missing_index_is_forbidden(m: Seq<char>)
    ensures
        final_status(m, true, false, false) == 403,
{
}

/// A request for a path that neither exists nor is a directory is 404.
pub proof fn law_missing_file_is_not_found(m: Seq<char>)
    ensures
        final_status(m, false, false, false) == 404,
{
}

/// A GET or HEAD for an existing, contained resource — a file, or a
/// directory whose index file exists — is answered 200.
pub proof fn law_resolved_get_head_is_ok(m: Seq<char>, is_dir: bool)
    requires
        method_allowed(m),
    ensures
        final_status(m, is_dir, true, true) == 200,
{
}

/// A method other than GET and HEAD on a resource that resolution would
/// have served is answered 405, and no body is streamed for it.
pub proof fn law_other_method_not_allowed(m: Seq<char>, is_dir: bool)
    requires
        !method_allowed(m),
    ensures
        final_status(m, is_dir, true, true) == 405,
        !wants_body(m, final_status(m, is_dir, true, true)),
{
}

/// HEAD never streams a body, whatever the status; in particular a HEAD
/// answered 200 sends headers alone.
pub proof fn law_head_sends_no_body(status: int)
    ensures
        !wants_body("HEAD"@, status),
{
    reveal_strlit("HEAD");
    reveal_strlit("GET");
    assert("HEAD"@.len() == 4);
    assert("GET"@.len() == 3);
}

/// A GET that resolved to 200 does stream the body.
pub proof fn law_ok_get_sends_body(is_dir: bool)
    ensures
        wants_body("GET"@, final_status("GET"@, is_dir, true, true)),
{
}

/// Whatever the method and the filesystem said, the status answered is
/// one of 200, 403, 404 and 405.
pub proof fn law_status_set(m: Seq<char>, is_dir: bool, exists: bool, contained: bool)
    ensures
        final_status(m, is_dir, exists, contained) == 200 || final_status(
            m,
            is_dir,
            exists,
            contained,
        ) == 403 || final_status(m, is_dir, exists, contained) == 404 || final_status(
            m,
            is_dir,
            exists,
            contained,
        ) == 405,
{
}

/// The defensive fallback phrase is unreachable: every status the policy
/// yields has its own reason phrase.
pub proof fn law_reason_is_never_unknown(m: Seq<char>, is_dir: bool, exists: bool, contained: bool)
    ensures
        reason_spec(final_status(m, is_dir, exists, contained)) != "Unknown Code"@,
{
    reveal_strlit("OK");
    reveal_strlit("Not Found");
    reveal_strlit("Forbidden");
    reveal_strlit("Method Not Allowed");
    reveal_strlit("Unknown Code");
    assert("OK"@.len() == 2);
    assert("Not Found"@.len() == 9);
    assert("Forbidden"@.len() == 9 && "Forbidden"@[0] == 'F');
    assert("Method Not Allowed"@.len() == 18);
    assert("Unknown Code"@.len() == 12 && "Unknown Code"@[0] == 'U');
}

} // verus!
