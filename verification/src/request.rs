//! Request-line parsing: splitting off method and target, stripping the
//! leading path separator and any query component, and percent-decoding.
//!
//! Percent-decoding works per escape: `%XX` becomes the character whose
//! code is the byte `XX`. For ASCII escapes — the whole of what the
//! server's own pages can need — this is exact. A multi-byte UTF-8
//! sequence written as several escapes (`%C3%A9` for a two-byte
//! character) is not reassembled into one character; such a path names no
//! file this server serves.

use vstd::prelude::*;
use vstd::string::StrSliceExecFns;
use vstd::string::StringExecFns;

use crate::text::find_char_from;
use crate::text::first_at;
use crate::text::lemma_first_at_props;
use crate::text::push_char;

verus! {

/// A parsed request: the method verbatim, and the decoded path relative to
/// the root (leading separator stripped, query removed, percent-decoded).
pub struct Request {
    pub method: String,
    pub path: String,
}

/// Whether `c` is an ASCII hexadecimal digit.
pub open spec fn is_hex_digit(c: char) -> bool {
    (48 <= c as u32 <= 57) || (97 <= c as u32 <= 102) || (65 <= c as u32 <= 70)
}

/// The value of a hexadecimal digit.
pub open spec fn hex_val(c: char) -> int
    recommends
        is_hex_digit(c),
{
    if 48 <= c as u32 <= 57 {
        c as u32 - 48
    } else if 97 <= c as u32 <= 102 {
        c as u32 - 87
    } else {
        c as u32 - 55
    }
}

/// Percent-decoding: every `%` followed by two hexadecimal digits becomes
/// the character with that code; everything else is kept as it stands.
/// Escaped bytes at or above 0x80 become the character with that code
/// point; multi-byte UTF-8 escape sequences are not reassembled (see the
/// module doc).
pub open spec fn pdecode(s: Seq<char>) -> Seq<char>
    decreases s.len(),
{
    if s.len() == 0 {
        Seq::empty()
    } else if s[0] == '%' && s.len() >= 3 && is_hex_digit(s[1]) && is_hex_digit(s[2]) {
        seq![((hex_val(s[1]) * 16 + hex_val(s[2])) as u8) as char] + pdecode(s.skip(3))
    } else {
        seq![s[0]] + pdecode(s.skip(1))
    }
}

fn hex_digit_val(c: char) -> (r: Option<u8>)
    ensures
        match r {
            Some(v) => is_hex_digit(c) && v as int == hex_val(c) && v < 16,
            None => !is_hex_digit(c),
        },
{
    let u = c as u32;
    if 48 <= u && u <= 57 {
        Some((u - 48) as u8)
    } else if 97 <= u && u <= 102 {
        Some((u - 87) as u8)
    } else if 65 <= u && u <= 70 {
        Some((u - 55) as u8)
    } else {
        None
    }
}

/// Percent-decodes a string slice.
pub fn percent_decode(s: &str) -> (r: String)
    ensures
        r@ == pdecode(s@),
{
    let r = decode_from(s, 0);
    proof {
        assert(s@.skip(0) =~= s@);
    }
    r
}

fn decode_from(s: &str, i: usize) -> (r: String)
    requires
        i <= s@.len(),
    ensures
        r@ == pdecode(s@.skip(i as int)),
    decreases s@.len() - i,
{
    let ghost t = s@.skip(i as int);
    let n = s.unicode_len();
    if i == n {
        proof {
            assert(t =~= Seq::<char>::empty());
        }
        String::new()
    } else {
        let c = s.get_char(i);
        proof {
            assert(t[0] == s@[i as int]);
        }
        if c == '%' && n - i > 2 {
            let h1 = s.get_char(i + 1);
            let h2 = s.get_char(i + 2);
            proof {
                assert(t[1] == s@[i + 1]);
                assert(t[2] == s@[i + 2]);
            }
            match (hex_digit_val(h1), hex_digit_val(h2)) {
                (Some(v1), Some(v2)) => {
                    let b: u8 = v1 * 16 + v2;
                    let rest = decode_from(s, i + 3);
                    let mut out = String::new();
                    push_char(&mut out, b as char);
                    out.append(rest.as_str());
                    proof {
                        assert(t.skip(3) =~= s@.skip(i + 3));
                        assert(out@ =~= pdecode(t));
                    }
                    out
                },
                _ => {
                    let rest = decode_from(s, i + 1);
                    let mut out = String::new();
                    push_char(&mut out, c);
                    out.append(rest.as_str());
                    proof {
                        assert(t.skip(1) =~= s@.skip(i + 1));
                        assert(out@ =~= pdecode(t));
                    }
                    out
                },
            }
        } else {
            let rest = decode_from(s, i + 1);
            let mut out = String::new();
            push_char(&mut out, c);
            out.append(rest.as_str());
            proof {
                assert(t.skip(1) =~= s@.skip(i + 1));
                assert(out@ =~= pdecode(t));
            }
            out
        }
    }
}

/// A request line is well-formed when it holds at least two spaces: one
/// after the method and one after the request-target.
pub open spec fn wellformed_request_line(s: Seq<char>) -> bool {
    first_at(s, ' ', 0) < s.len() && first_at(s, ' ', first_at(s, ' ', 0) + 1) < s.len()
}

/// The method token: everything before the first space.
pub open spec fn spec_method(s: Seq<char>) -> Seq<char> {
    s.take(first_at(s, ' ', 0))
}

/// The request-target token: everything between the first two spaces.
pub open spec fn spec_target(s: Seq<char>) -> Seq<char> {
    s.subrange(first_at(s, ' ', 0) + 1, first_at(s, ' ', first_at(s, ' ', 0) + 1))
}

/// Strips one leading `/`, if present.
pub open spec fn strip_lead_slash(t: Seq<char>) -> Seq<char> {
    if t.len() > 0 && t[0] == '/' {
        t.skip(1)
    } else {
        t
    }
}

/// Drops everything from the first `?` on.
pub open spec fn strip_query(t: Seq<char>) -> Seq<char> {
    t.take(first_at(t, '?', 0))
}

/// The decoded path of a well-formed request line.
pub open spec fn spec_decoded_path(s: Seq<char>) -> Seq<char> {
    pdecode(strip_query(strip_lead_slash(spec_target(s))))
}

/// Splits the request line into method and decoded path. Returns `None`
/// exactly on a malformed line (fewer than three space-separated tokens);
/// the caller is then expected to close the connection without responding.
pub fn parse_request(line: &str) -> (r: Option<Request>)
    ensures
        match r {
            Some(req) => wellformed_request_line(line@) && req.method@ == spec_method(line@)
                && req.path@ == spec_decoded_path(line@),
            None => !wellformed_request_line(line@),
        },
{
    let n = line.unicode_len();
    let i = find_char_from(line, ' ', 0);
    proof {
        lemma_first_at_props(line@, ' ', 0);
    }
    if i == n {
        return None;
    }
    let j = find_char_from(line, ' ', i + 1);
    proof {
        lemma_first_at_props(line@, ' ', i + 1);
    }
    if j == n {
        return None;
    }
    let method = line.substring_char(0, i).to_owned();
    let target = line.substring_char(i + 1, j);
    let tn = target.unicode_len();
    let t2: &str = if tn > 0 && target.get_char(0) == '/' {
        target.substring_char(1, tn)
    } else {
        target
    };
    proof {
        assert(method@ =~= spec_method(line@));
        assert(target@ =~= spec_target(line@));
        if target@.len() > 0 && target@[0] == '/' {
            assert(t2@ =~= strip_lead_slash(spec_target(line@)));
        } else {
            assert(t2@ =~= strip_lead_slash(spec_target(line@)));
        }
    }
    let q = find_char_from(t2, '?', 0);
    proof {
        lemma_first_at_props(t2@, '?', 0);
    }
    let t3 = t2.substring_char(0, q);
    proof {
        assert(t3@ =~= strip_query(strip_lead_slash(spec_target(line@))));
    }
    let path = percent_decode(t3);
    Some(Request { method, path })
}

} // verus!
