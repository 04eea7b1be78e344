//! The extension-to-MIME table, and extraction of a file's extension from
//! its path. A missing or unknown extension maps to the empty string, and
//! the Content-Type header is then omitted.

use vstd::prelude::*;
use vstd::string::StrSliceExecFns;
use vstd::string::StringExecFns;

use crate::text::lower_seq;
use crate::text::str_eq;
use crate::text::to_lowercase_ascii;

verus! {

/// The index right after the last `.` of the last path component, or -1
/// when that component holds no `.` at all.
pub open spec fn ext_start(s: Seq<char>) -> int
    decreases s.len(),
{
    if s.len() == 0 {
        -1
    } else if s[s.len() - 1] == '.' {
        s.len() as int
    } else if s[s.len() - 1] == '/' {
        -1
    } else {
        ext_start(s.drop_last())
    }
}

/// The extension of a path: what follows the last `.` of the last
/// component, empty when there is none.
pub open spec fn extension_of(s: Seq<char>) -> Seq<char> {
    if ext_start(s) == -1 {
        Seq::empty()
    } else {
        s.skip(ext_start(s))
    }
}

/// The MIME string for a lowercase extension; unknown extensions map to
/// the empty string.
pub open spec fn mime_for(ext: Seq<char>) -> Seq<char> {
    if ext == "html"@ {
        "text/html"@
    } else if ext == "css"@ {
        "text/css"@
    } else if ext == "js"@ {
        "text/javascript"@
    } else if ext == "jpg"@ || ext == "jpeg"@ {
        "image/jpeg"@
    } else if ext == "png"@ {
        "image/png"@
    } else if ext == "gif"@ {
        "image/gif"@
    } else if ext == "swf"@ {
        "application/x-shockwave-flash"@
    } else {
        Seq::empty()
    }
}

/// The content type of a path: the table applied to its ASCII-lowercased
/// extension.
pub open spec fn content_type_of(path: Seq<char>) -> Seq<char> {
    mime_for(lower_seq(extension_of(path)))
}

fn mime_lookup(ext: &str) -> (r: String)
    ensures
        r@ == mime_for(ext@),
{
    if str_eq(ext, "html") {
        String::from_str("text/html")
    } else if str_eq(ext, "css") {
        String::from_str("text/css")
    } else if str_eq(ext, "js") {
        String::from_str("text/javascript")
    } else if str_eq(ext, "jpg") || str_eq(ext, "jpeg") {
        String::from_str("image/jpeg")
    } else if str_eq(ext, "png") {
        String::from_str("image/png")
    } else if str_eq(ext, "gif") {
        String::from_str("image/gif")
    } else if str_eq(ext, "swf") {
        String::from_str("application/x-shockwave-flash")
    } else {
        String::new()
    }
}

/// Extracts the extension of `path`, as `extension_of` describes it.
pub fn extension_for(path: &str) -> (r: String)
    ensures
        r@ == extension_of(path@),
{
    let n = path.unicode_len();
    let mut i: usize = n;
    proof {
        assert(path@.take(n as int) =~= path@);
    }
    while i > 0
        invariant
            0 <= i <= n,
            n == path@.len(),
            ext_start(path@) == ext_start(path@.take(i as int)),
            forall|k: int| i <= k < n ==> path@[k] != '.' && path@[k] != '/',
        decreases i,
    {
        let c = path.get_char(i - 1);
        proof {
            assert(path@.take(i as int).last() == path@[i - 1]);
            assert(path@.take(i as int).drop_last() =~= path@.take(i - 1));
        }
        if c == '.' {
            let ext = path.substring_char(i, n);
            proof {
                assert(ext@ =~= path@.skip(i as int));
            }
            return ext.to_owned();
        }
        if c == '/' {
            proof {
                assert(extension_of(path@) =~= Seq::<char>::empty());
            }
            return String::new();
        }
        i -= 1;
    }
    proof {
        assert(path@.take(0) =~= Seq::<char>::empty());
        assert(extension_of(path@) =~= Seq::<char>::empty());
    }
    String::new()
}

/// The content type served for `path`: the table applied to the
/// lowercased extension, the empty string when the table holds no entry.
pub fn content_type_for(path: &str) -> (r: String)
    ensures
        r@ == content_type_of(path@),
{
    let ext = extension_for(path);
    let low = to_lowercase_ascii(ext.as_str());
    mime_lookup(low.as_str())
}

} // verus!
