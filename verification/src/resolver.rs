//! Glob path resolution: the literal prefix of a pattern, and the relocation
//! destination computed from it.
//!
//! A pattern is a `/`-separated path whose segments may contain the wildcard
//! character `*`. The resolver returns the longest prefix of segments, joined
//! by `/`, up to but excluding the first segment that contains a wildcard; a
//! pattern without a wildcard resolves to itself, and a pattern whose first
//! segment already holds a wildcard resolves to the empty string.

use vstd::prelude::*;
use crate::strutil::str_eq;

verus! {

/// True when no character of `s` is the wildcard `*`.
pub open spec fn star_free(s: Seq<char>) -> bool {
    forall|i: int| 0 <= i < s.len() ==> s[i] != '*'
}

/// Index of the first `*` of `s` at or after `i`; `s.len()` when there is none.
pub open spec fn first_star_from(s: Seq<char>, i: int) -> int
    decreases s.len() - i when 0 <= i <= s.len()
{
    if i >= s.len() {
        s.len() as int
    } else if s[i] == '*' {
        i
    } else {
        first_star_from(s, i + 1)
    }
}

/// Index of the last `/` of `s` strictly before `p`; `0` when none stands there.
pub open spec fn last_slash_before(s: Seq<char>, p: int) -> int
    decreases p when p >= 0
{
    if p <= 0 {
        0
    } else if s[p - 1] == '/' {
        p - 1
    } else {
        last_slash_before(s, p - 1)
    }
}

/// The literal prefix of the pattern `s`: everything up to, and excluding, the
/// first segment that contains a wildcard, segments joined by `/`.
pub open spec fn pre_glob(s: Seq<char>) -> Seq<char> {
    if star_free(s) {
        s
    } else {
        s.subrange(0, last_slash_before(s, first_star_from(s, 0)))
    }
}

proof fn lemma_first_star_scan(s: Seq<char>, i: int, p: int)
    requires
        0 <= i <= p <= s.len(),
        forall|k: int| i <= k < p ==> s[k] != '*',
        p == s.len() || s[p] == '*',
    ensures
        first_star_from(s, i) == p,
    decreases p - i,
{
    if i < p {
        lemma_first_star_scan(s, i + 1, p);
    }
}

proof fn lemma_last_slash_scan(s: Seq<char>, j: int, p: int)
    requires
        0 <= j <= p <= s.len(),
        forall|k: int| j <= k < p ==> s[k] != '/',
        j == 0 || s[j - 1] == '/',
    ensures
        last_slash_before(s, p) == if j > 0 { j - 1 } else { 0int },
    decreases p - j,
{
    if j < p {
        lemma_last_slash_scan(s, j, p - 1);
    }
}

/// The longest literal (wildcard-free) prefix directory of a glob pattern.
///
/// A pattern with no wildcard is returned unchanged; otherwise the result is
/// the pattern cut at the last `/` before its first `*`, or empty when the
/// wildcard stands in the first segment.
pub fn get_pre_glob_path(path: &str) -> (r: String)
    ensures
        r@ == pre_glob(path@),
        star_free(path@) ==> r@ == path@,
{
    let n = path.unicode_len();
    let mut p: usize = 0;
    while p < n && path.get_char(p) != '*'
        invariant
            p <= n,
            n == path@.len(),
            forall|k: int| 0 <= k < p ==> path@[k] != '*',
        decreases n - p,
    {
        p += 1;
    }
    if p == n {
        proof {
            assert(star_free(path@));
        }
        return path.to_owned();
    }
    proof {
        lemma_first_star_scan(path@, 0, p as int);
        assert(!star_free(path@));
    }
    let mut j: usize = p;
    while j > 0 && path.get_char(j - 1) != '/'
        invariant
            j <= p,
            p < n,
            n == path@.len(),
            forall|k: int| j <= k < p ==> path@[k] != '/',
        decreases j,
    {
        j -= 1;
    }
    proof {
        lemma_last_slash_scan(path@, j as int, p as int);
    }
    let cut: usize = if j > 0 { j - 1 } else { 0 };
    let r = path.substring_char(0, cut).to_owned();
    r
}

/// The suffix of `path` after one occurrence of `prefix` has been removed from
/// its start; `path` itself when it does not start with `prefix`.
pub open spec fn strip_once(prefix: Seq<char>, path: Seq<char>) -> Seq<char> {
    if prefix.len() <= path.len() && path.subrange(0, prefix.len() as int) == prefix {
        path.skip(prefix.len() as int)
    } else {
        path
    }
}

/// The relocation destination for a matched `path`: `to` itself when stripping
/// `prefix` from `path` leaves nothing, else `to`, a `/`, and the remainder.
pub open spec fn dest_of(prefix: Seq<char>, path: Seq<char>, to: Seq<char>) -> Seq<char> {
    let s = strip_once(prefix, path);
    if s.len() == 0 {
        to
    } else {
        to + seq!['/'] + s
    }
}

/// Computes where a glob match lands when relocated under `to`, after the
/// pattern's literal prefix is stripped from the match.
pub fn copy_destination(prefix: &str, path: &str, to: &str) -> (r: String)
    ensures
        r@ == dest_of(prefix@, path@, to@),
{
    let pl = prefix.unicode_len();
    let n = path.unicode_len();
    let starts = if pl <= n {
        str_eq(path.substring_char(0, pl), prefix)
    } else {
        false
    };
    let suffix: &str = if starts {
        path.substring_char(pl, n)
    } else {
        path
    };
    proof {
        if starts {
            assert(path@.subrange(pl as int, n as int) =~= path@.skip(pl as int));
        }
        assert(suffix@ == strip_once(prefix@, path@));
    }
    if suffix.unicode_len() == 0 {
        to.to_owned()
    } else {
        let mut r = to.to_owned();
        r.append("/");
        r.append(suffix);
        proof {
            reveal_strlit("/");
            assert("/"@ =~= seq!['/']);
        }
        r
    }
}

} // verus!
