//! Path handling: joining the requested path under the root, substituting
//! `index.html` for directory requests, and the component-wise containment
//! check that keeps every resolved path inside the root.

use vstd::prelude::*;
use vstd::string::StrSliceExecFns;
use vstd::string::StringExecFns;

use crate::policy::resolved_status;
use crate::text::find_char_from;
use crate::text::first_at;
use crate::text::lemma_first_at_is;
use crate::text::lemma_first_at_props;

verus! {

/// The non-empty components of a path: the stretches between `/`
/// separators, with empty stretches dropped.
pub open spec fn seg_split(s: Seq<char>) -> Seq<Seq<char>>
    decreases s.len(),
    via seg_split_dec
{
    if s.len() == 0 {
        Seq::empty()
    } else if s[0] == '/' {
        seg_split(s.skip(1))
    } else {
        let k = first_at(s, '/', 0);
        seq![s.take(k)] + seg_split(s.skip(k))
    }
}

#[via_fn]
proof fn seg_split_dec(s: Seq<char>) {
    if s.len() > 0 && s[0] != '/' {
        lemma_first_at_props(s, '/', 0);
    }
}

/// Component-wise containment: `path` lies at or below `root` when the
/// component sequence of `root` is a prefix of that of `path`. This is the
/// check spoken of throughout: a string prefix is not enough, since
/// `/root2` begins with the string `/root` without lying below it.
pub open spec fn contained_in(root: Seq<char>, path: Seq<char>) -> bool {
    seg_split(root).is_prefix_of(seg_split(path))
}

fn split_from(s: &str, i: usize) -> (r: Vec<String>)
    requires
        i <= s@.len(),
    ensures
        r.deep_view() == seg_split(s@.skip(i as int)),
    decreases s@.len() - i,
{
    let ghost t = s@.skip(i as int);
    let n = s.unicode_len();
    if i == n {
        let r: Vec<String> = Vec::new();
        proof {
            assert(t =~= Seq::<char>::empty());
            assert(r.deep_view() =~= seg_split(t));
        }
        r
    } else if s.get_char(i) == '/' {
        let r = split_from(s, i + 1);
        proof {
            assert(t[0] == s@[i as int]);
            assert(t.skip(1) =~= s@.skip(i + 1));
        }
        r
    } else {
        let j = find_char_from(s, '/', i);
        proof {
            lemma_first_at_props(s@, '/', i as int);
            assert(t[0] == s@[i as int]);
            assert forall|m: int| 0 <= m < j - i implies t[m] != '/' by {
                assert(t[m] == s@[i + m]);
            }
            if j < n {
                assert(t[j - i] == s@[j as int]);
            }
            lemma_first_at_is(t, '/', 0, j - i);
        }
        let seg = s.substring_char(i, j).to_owned();
        let rest = split_from(s, j);
        let ghost rest_dv = rest.deep_view();
        let ghost rest_view = rest@;
        let mut r = rest;
        r.insert(0, seg);
        proof {
            assert(t.take(j - i) =~= s@.subrange(i as int, j as int));
            assert(t.skip(j - i) =~= s@.skip(j as int));
            assert(seg_split(t) == seq![seg@] + seg_split(s@.skip(j as int)));
            assert forall|m: int| 0 <= m < r.deep_view().len() implies r.deep_view()[m] == (
            seq![seg@] + rest_dv)[m] by {
                if m == 0 {
                    assert(r@[0] == seg);
                } else {
                    assert(r@[m] == rest_view[m - 1]);
                    assert(rest_dv[m - 1] == rest_view[m - 1].deep_view());
                }
            }
            assert(r.deep_view() =~= seq![seg@] + rest_dv);
        }
        r
    }
}

/// Splits a path into its non-empty components.
pub fn split_segments(s: &str) -> (r: Vec<String>)
    ensures
        r.deep_view() == seg_split(s@),
{
    let r = split_from(s, 0);
    proof {
        assert(s@.skip(0) =~= s@);
    }
    r
}

/// Decides component-wise containment of `path` under `root`.
pub fn is_contained(root: &str, path: &str) -> (r: bool)
    ensures
        r == contained_in(root@, path@),
{
    let rs = split_segments(root);
    let ps = split_segments(path);
    if rs.len() > ps.len() {
        return false;
    }
    let mut k: usize = 0;
    while k < rs.len()
        invariant
            0 <= k <= rs.len() <= ps.len(),
            rs.deep_view() == seg_split(root@),
            ps.deep_view() == seg_split(path@),
            forall|m: int| 0 <= m < k ==> rs.deep_view()[m] == ps.deep_view()[m],
        decreases rs.len() - k,
    {
        if !(rs[k] == ps[k]) {
            proof {
                assert(rs.deep_view()[k as int] != ps.deep_view()[k as int]);
            }
            return false;
        }
        k += 1;
    }
    proof {
        assert(seg_split(root@) =~= seg_split(path@).subrange(0, seg_split(root@).len() as int));
    }
    true
}

/// Joins the decoded request path under the root directory with a single
/// separator; an empty request path names the root itself.
pub fn join_under_root(root: &str, rel: &str) -> (r: String)
    ensures
        r@ == root@ + "/"@ + rel@,
{
    let mut s = root.to_owned();
    s.append("/");
    s.append(rel);
    s
}

/// The candidate actually looked up: the joined path itself, or the
/// `index.html` inside it when the joined path turned out to be a
/// directory (an "index lookup").
pub open spec fn adjusted_candidate(candidate: Seq<char>, is_dir: bool) -> Seq<char> {
    if is_dir {
        candidate + "/index.html"@
    } else {
        candidate
    }
}

/// Substitutes the directory's `index.html` when the candidate is a
/// directory; otherwise keeps the candidate as it stands.
pub fn final_candidate(candidate: &str, is_dir: bool) -> (r: String)
    ensures
        r@ == adjusted_candidate(candidate@, is_dir),
{
    if is_dir {
        let mut s = candidate.to_owned();
        s.append("/index.html");
        s
    } else {
        candidate.to_owned()
    }
}

/// The outcome of path resolution: a status code, and the canonical
/// absolute path — present exactly when the status is 200, and then
/// always contained in the root.
pub struct Resolution {
    pub status: u16,
    pub absolute_path: Option<String>,
}

impl Resolution {
    /// The invariant of a resolution against its root: the path is there
    /// exactly on a 200, and then lies inside the root.
    pub open spec fn wf(self, root: Seq<char>) -> bool {
        match self.absolute_path {
            Some(p) => self.status == 200 && contained_in(root, p@),
            None => self.status != 200,
        }
    }
}

/// Decides the resolution status from the canonicalized candidate.
/// `is_dir` says whether the joined path was a directory (an index
/// lookup), `exists` whether the adjusted candidate exists at all, and
/// `canonical` is its canonicalized form — read only when it exists. The
/// containment check runs on the canonical form, never on the raw
/// candidate: checking before symlinks and `..` are resolved would let a
/// path escape the root.
pub fn resolve_path(root: &str, canonical: &str, is_dir: bool, exists: bool) -> (r: Resolution)
    ensures
        r.status as int == resolved_status(is_dir, exists, contained_in(root@, canonical@)),
        r.wf(root@),
        r.status == 200 ==> (match r.absolute_path {
            Some(p) => p@ == canonical@,
            None => false,
        }),
{
    if !exists {
        let status: u16 = if is_dir {
            403
        } else {
            404
        };
        Resolution { status, absolute_path: None }
    } else if !is_contained(root, canonical) {
        Resolution { status: 403, absolute_path: None }
    } else {
        Resolution { status: 200, absolute_path: Some(canonical.to_owned()) }
    }
}

} // verus!
