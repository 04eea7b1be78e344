//! Composition of the response header block: the HTTP/1.0 status line, a
//! Date header, the fixed Connection and Server headers, and — for a 200
//! answer only — Content-Type and Content-Length.

use vstd::prelude::*;
use vstd::string::StrSliceExecFns;
use vstd::string::StringExecFns;

use crate::policy::reason_from_code;
use crate::policy::reason_spec;
use crate::text::dec_chars;
use crate::text::u64_to_string;

verus! {

/// The Content-Type header line, omitted entirely when no type is known.
pub open spec fn content_type_block(ctype: Seq<char>) -> Seq<char> {
    if ctype.len() == 0 {
        Seq::empty()
    } else {
        "Content-Type: "@ + ctype + "\r\n"@
    }
}

/// The headers describing the entity, present only on a 200 answer.
pub open spec fn entity_block(code: int, len: nat, ctype: Seq<char>) -> Seq<char> {
    if code == 200 {
        content_type_block(ctype) + "Content-Length: "@ + dec_chars(len) + "\r\n"@
    } else {
        Seq::empty()
    }
}

/// The whole header block for a response: status line, Date, Connection
/// and Server headers, the entity headers on a 200, and the empty line
/// that closes the block. Every line is CRLF-terminated.
pub open spec fn headers_text(code: int, len: nat, ctype: Seq<char>, date: Seq<char>) -> Seq<
    char,
> {
    "HTTP/1.0 "@ + dec_chars(code as nat) + " "@ + reason_spec(code) + "\r\n"@ + "Date: "@ + date
        + "\r\n"@ + "Connection: close\r\n"@ + "Server: rust_static_server\r\n"@ + entity_block(
        code,
        len,
        ctype,
    ) + "\r\n"@
}

/// Builds the header block for a response. `content_len` and
/// `content_type` are read only when `code` is 200.
pub fn build_headers(code: u16, content_len: u64, content_type: &str, date: &str) -> (r: String)
    ensures
        r@ == headers_text(code as int, content_len as nat, content_type@, date@),
{
    let mut h = String::from_str("HTTP/1.0 ");
    let code_digits = u64_to_string(code as u64);
    h.append(code_digits.as_str());
    h.append(" ");
    let reason = reason_from_code(code as i32);
    h.append(reason.as_str());
    h.append("\r\n");
    h.append("Date: ");
    h.append(date);
    h.append("\r\n");
    h.append("Connection: close\r\n");
    h.append("Server: rust_static_server\r\n");
    if code == 200 {
        if content_type.unicode_len() > 0 {
            h.append("Content-Type: ");
            h.append(content_type);
            h.append("\r\n");
        }
        h.append("Content-Length: ");
        let len_digits = u64_to_string(content_len);
        h.append(len_digits.as_str());
        h.append("\r\n");
    }
    h.append("\r\n");
    proof {
        assert(h@ =~= headers_text(code as int, content_len as nat, content_type@, date@));
    }
    h
}

/// The header block always closes with an empty CRLF line: its last four
/// characters are CRLF twice, whatever the status, lengths and texts.
pub proof fn law_block_ends_with_blank_line(code: int, len: nat, ctype: Seq<char>, date: Seq<char>)
    ensures
        headers_text(code, len, ctype, date).len() >= 4,
        headers_text(code, len, ctype, date).skip(
            headers_text(code, len, ctype, date).len() - 4,
        ) == "\r\n\r\n"@,
{
    let h = headers_text(code, len, ctype, date);
    reveal_strlit("\r\n");
    reveal_strlit("\r\n\r\n");
    reveal_strlit("Server: rust_static_server\r\n");
    assert(h.skip(h.len() - 4) =~= "\r\n\r\n"@);
}

/// The current time, formatted per the HTTP-date convention, always UTC;
/// `None` when the clock reads outside the range httpdate formats.
///
/// Relies on `httpdate::fmt_http_date` applied to `std::time::SystemTime::now`:
/// its source formats the time into a fixed 29-byte IMF-fixdate buffer of
/// digits, month and weekday names, spaces, a comma, colons and `GMT` —
/// printable ASCII throughout, so the text can never break the header
/// framing. That source panics on a clock before the Unix epoch
/// (`duration_since` fails) or at 253402300800 seconds and beyond (its
/// own year-9999 bound); both readings are answered with `None` here
/// instead, so the call returns on every clock state.
#[verifier::external_body]
fn http_date_now() -> (r: Option<String>)
    ensures
        match r {
            Some(s) => s@.len() == 29 && (forall|i: int|
                0 <= i < s@.len() ==> 32 <= #[trigger] (s@[i] as u32) <= 126),
            None => true,
        },
{
    let now = std::time::SystemTime::now();
    match now.duration_since(std::time::UNIX_EPOCH) {
        Ok(d) if d.as_secs() < 253402300800 => Some(httpdate::fmt_http_date(now)),
        _ => None,
    }
}

/// The Date header's text: the clock's reading whenever it lies in the
/// range the HTTP-date convention can express, and the fixed epoch date
/// otherwise — either way exactly 29 printable ASCII characters, so the
/// header block stays well framed.
pub fn current_http_date() -> (r: String)
    ensures
        r@.len() == 29,
        forall|i: int| 0 <= i < r@.len() ==> 32 <= #[trigger] (r@[i] as u32) <= 126,
{
    match http_date_now() {
        Some(date) => date,
        None => {
            let fallback = String::from_str("Thu, 01 Jan 1970 00:00:00 GMT");
            proof {
                reveal_strlit("Thu, 01 Jan 1970 00:00:00 GMT");
                assert(fallback@.len() == 29);
            }
            fallback
        },
    }
}

} // verus!
