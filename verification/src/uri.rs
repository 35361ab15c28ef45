//! Extraction of a filename from a URI.
//!
//! The filename of a URI is its last non-empty path segment. The path of a
//! URI string begins at the first slash after the `://` scheme marker and
//! its authority, or at the first slash of the whole string when there is
//! no marker; a URI of only a scheme and a host has an empty path and no
//! filename.

use vstd::prelude::*;
use crate::text::occurs_at;

verus! {

/// The scheme marker that separates a scheme from an authority.
pub open spec fn scheme_marker() -> Seq<char> {
    seq![':', '/', '/']
}

/// The first position at or after `from` where `pat` occurs in `s`.
pub open spec fn find_at(s: Seq<char>, pat: Seq<char>, from: int) -> Option<int>
    decreases s.len() - from,
    when 0 <= from <= s.len() && pat.len() >= 1
{
    if from + pat.len() > s.len() {
        None
    } else if occurs_at(s, pat, from) {
        Some(from)
    } else {
        find_at(s, pat, from + 1)
    }
}

/// The last position in `[lo, hi)` holding the character `c`.
pub open spec fn last_pos_in(s: Seq<char>, c: char, lo: int, hi: int) -> Option<int>
    decreases hi - lo,
    when 0 <= lo && hi <= s.len()
{
    if hi <= lo {
        None
    } else if s[hi - 1] == c {
        Some(hi - 1)
    } else {
        last_pos_in(s, c, lo, hi - 1)
    }
}

/// Where the path component of the URI string `s` begins; `s.len()` when
/// the path is empty.
pub open spec fn path_start(s: Seq<char>) -> int {
    match find_at(s, scheme_marker(), 0) {
        Some(k) => match find_at(s, seq!['/'], k + 3) {
            Some(p) => p,
            None => s.len() as int,
        },
        None => match find_at(s, seq!['/'], 0) {
            Some(p) => p,
            None => s.len() as int,
        },
    }
}

/// Where the query or fragment of the URI string `s` begins: the first
/// `?` or `#`, or `s.len()` when there is neither. The path never reaches
/// past it.
pub open spec fn query_start(s: Seq<char>) -> int {
    let q = match find_at(s, seq!['?'], 0) {
        Some(k) => k,
        None => s.len() as int,
    };
    let f = match find_at(s, seq!['#'], 0) {
        Some(k) => k,
        None => s.len() as int,
    };
    if q <= f {
        q
    } else {
        f
    }
}

/// The last non-empty segment of a URI head that carries no query or
/// fragment, if any.
pub open spec fn path_filename(s: Seq<char>) -> Option<Seq<char>> {
    let p = path_start(s);
    let fs = match last_pos_in(s, '/', p, s.len() as int) {
        Some(k) => k + 1,
        None => p,
    };
    if fs < s.len() {
        Some(s.skip(fs))
    } else {
        None
    }
}

/// The last non-empty path segment of the URI string `s`, if any: the
/// query and fragment are cut off first, so they never leak into a
/// filename.
pub open spec fn filename_of_uri(s: Seq<char>) -> Option<Seq<char>> {
    path_filename(s.take(query_start(s)))
}

/// A scan that found no occurrence of `pat` before `k`, and one at `k`,
/// has found the first one.
pub(crate) proof fn lemma_find_at_found(s: Seq<char>, pat: Seq<char>, from: int, k: int)
    requires
        pat.len() >= 1,
        0 <= from <= k,
        k + pat.len() <= s.len(),
        occurs_at(s, pat, k),
        forall|j: int| from <= j < k ==> !occurs_at(s, pat, j),
    ensures
        find_at(s, pat, from) == Some(k),
    decreases k - from,
{
    if from < k {
        lemma_find_at_found(s, pat, from + 1, k);
    }
}

/// A scan that found no occurrence of `pat` anywhere at or after `from`
/// has found none.
pub(crate) proof fn lemma_find_at_none(s: Seq<char>, pat: Seq<char>, from: int)
    requires
        pat.len() >= 1,
        0 <= from <= s.len(),
        forall|j: int| from <= j ==> !occurs_at(s, pat, j),
    ensures
        find_at(s, pat, from) == None::<int>,
    decreases s.len() - from,
{
    if from + pat.len() <= s.len() {
        lemma_find_at_none(s, pat, from + 1);
    }
}

/// A scan that saw no `c` in `[k, hi)` and one at `k - 1` has found the
/// last one in `[lo, hi)`.
pub(crate) proof fn lemma_last_pos_found(s: Seq<char>, c: char, lo: int, hi: int, k: int)
    requires
        0 <= lo <= k < hi <= s.len(),
        s[k] == c,
        forall|j: int| k < j < hi ==> s[j] != c,
    ensures
        last_pos_in(s, c, lo, hi) == Some(k),
    decreases hi - k,
{
    if k < hi - 1 {
        lemma_last_pos_found(s, c, lo, hi - 1, k);
    }
}

/// A scan that saw no `c` at all in `[lo, hi)` has found none.
pub(crate) proof fn lemma_last_pos_none(s: Seq<char>, c: char, lo: int, hi: int)
    requires
        0 <= lo,
        hi <= s.len(),
        forall|j: int| lo <= j < hi ==> s[j] != c,
    ensures
        last_pos_in(s, c, lo, hi) == None::<int>,
    decreases hi - lo,
{
    if lo < hi {
        lemma_last_pos_none(s, c, lo, hi - 1);
    }
}

/// Whether the scheme marker `://` occurs in `s` at position `k`.
#[verifier::loop_isolation(false)]
fn marker_at(s: &str, k: usize) -> (r: bool)
    requires
        k + 3 <= s@.len(),
        s@.len() <= usize::MAX,
    ensures
        r == occurs_at(s@, scheme_marker(), k as int),
{
    let r = s.get_char(k) == ':' && s.get_char(k + 1) == '/' && s.get_char(k + 2) == '/';
    proof {
        if r {
            assert(s@.subrange(k as int, k + 3) =~= scheme_marker());
        } else {
            assert(s@.subrange(k as int, k + 3)[0] == s@[k as int]);
            assert(s@.subrange(k as int, k + 3)[1] == s@[k + 1]);
            assert(s@.subrange(k as int, k + 3)[2] == s@[k + 2]);
        }
    }
    r
}

/// The first position at or after `from` holding the character `c`, or
/// the string's length when there is none.
#[verifier::loop_isolation(false)]
pub(crate) fn find_char_from(s: &str, from: usize, c: char) -> (r: usize)
    requires
        from <= s@.len(),
    ensures
        from <= r <= s@.len(),
        find_at(s@, seq![c], from as int) == if r < s@.len() {
            Some(r as int)
        } else {
            None::<int>
        },
        r < s@.len() ==> s@[r as int] == c,
        forall|j: int| from <= j < r ==> s@[j] != c,
{
    let n = s.unicode_len();
    let mut i = from;
    while i < n && s.get_char(i) != c
        invariant
            from <= i <= n,
            forall|j: int| from <= j < i ==> s@[j] != c,
        decreases n - i,
    {
        i += 1;
    }
    proof {
        assert(forall|j: int| from <= j < i ==> !occurs_at(s@, seq![c], j)) by {
            assert forall|j: int| from <= j < i implies !occurs_at(s@, seq![c], j) by {
                assert(s@.subrange(j, j + 1)[0] == s@[j]);
            }
        }
        if i < n {
            assert(s@.subrange(i as int, i + 1) =~= seq![c]);
            lemma_find_at_found(s@, seq![c], from as int, i as int);
        } else {
            assert(forall|j: int| from <= j ==> !occurs_at(s@, seq![c], j)) by {
                assert forall|j: int| from <= j && j + 1 <= s@.len() implies !occurs_at(
                    s@,
                    seq![c],
                    j,
                ) by {
                    assert(s@.subrange(j, j + 1)[0] == s@[j]);
                }
            }
            lemma_find_at_none(s@, seq![c], from as int);
        }
    }
    i
}

/// The last non-empty segment of a URI head without query or fragment.
#[verifier::loop_isolation(false)]
fn last_path_segment(uri: &str) -> (r: Option<String>)
    ensures
        match path_filename(uri@) {
            Some(name) => r is Some && r->0@ == name,
            None => r is None,
        },
{
    let n = uri.unicode_len();
    // Find the first occurrence of the scheme marker, if any.
    let mut k: usize = 0;
    let mut marker: Option<usize> = None;
    if n >= 3 {
        while k <= n - 3
            invariant
                0 <= k <= n - 2,
                3 <= n == uri@.len(),
                forall|j: int| 0 <= j < k ==> !occurs_at(uri@, scheme_marker(), j),
                marker is Some ==> {
                    &&& marker->0 == k
                    &&& k + 3 <= n
                    &&& occurs_at(uri@, scheme_marker(), k as int)
                },
            decreases n - k,
        {
            if marker_at(uri, k) {
                marker = Some(k);
                break ;
            }
            k += 1;
        }
    }
    proof {
        if marker is None {
            assert(forall|j: int| 0 <= j ==> !occurs_at(uri@, scheme_marker(), j)) by {
                assert forall|j: int| 0 <= j implies !occurs_at(uri@, scheme_marker(), j) by {
                    if j + 3 <= uri@.len() {
                        assert(j < k);
                    }
                }
            }
        }
    }
    let pstart: usize;
    match marker {
        Some(m) => {
            proof {
                lemma_find_at_found(uri@, scheme_marker(), 0, m as int);
            }
            pstart = find_char_from(uri, m + 3, '/');
        },
        None => {
            proof {
                assert(forall|j: int| 0 <= j ==> !occurs_at(uri@, scheme_marker(), j));
                lemma_find_at_none(uri@, scheme_marker(), 0);
            }
            pstart = find_char_from(uri, 0, '/');
        },
    }
    proof {
        assert(pstart as int == path_start(uri@) || (pstart == n && path_start(uri@) == n));
    }
    // Find the start of the last segment: one past the last slash of the
    // path, or the start of the path when it holds no slash.
    let mut seg: usize = pstart;
    let mut last_slash: Option<usize> = None;
    let mut i: usize = pstart;
    while i < n
        invariant
            pstart <= i <= n,
            n == uri@.len(),
            match last_slash {
                Some(k2) => {
                    &&& pstart <= k2 < i
                    &&& uri@[k2 as int] == '/'
                    &&& seg == k2 + 1
                    &&& forall|j: int| k2 < j < i ==> uri@[j] != '/'
                },
                None => {
                    &&& seg == pstart
                    &&& forall|j: int| pstart <= j < i ==> uri@[j] != '/'
                },
            },
        decreases n - i,
    {
        if uri.get_char(i) == '/' {
            last_slash = Some(i);
            seg = i + 1;
        }
        i += 1;
    }
    proof {
        match last_slash {
            Some(k2) => {
                lemma_last_pos_found(uri@, '/', pstart as int, n as int, k2 as int);
            },
            None => {
                lemma_last_pos_none(uri@, '/', pstart as int, n as int);
            },
        }
    }
    if seg < n {
        let name = crate::text::copy_range(uri, seg, n);
        proof {
            assert(uri@.subrange(seg as int, n as int) =~= uri@.skip(seg as int));
        }
        Some(name)
    } else {
        None
    }
}

/// Returns the last non-empty path segment of the URI, or `None` when the
/// path is empty or ends with a slash; the query and fragment never count
/// as part of the filename.
pub fn extract_filename_from_uri(uri: &str) -> (r: Option<String>)
    ensures
        match filename_of_uri(uri@) {
            Some(name) => r is Some && r->0@ == name,
            None => r is None,
        },
{
    let n = uri.unicode_len();
    let q = find_char_from(uri, 0, '?');
    let f = find_char_from(uri, 0, '#');
    let qend = if q <= f {
        q
    } else {
        f
    };
    proof {
        assert(qend as int == query_start(uri@));
    }
    let head = crate::text::copy_range(uri, 0, qend);
    proof {
        assert(head@ =~= uri@.take(query_start(uri@)));
    }
    last_path_segment(head.as_str())
}

/// Whether a client-supplied URL string has the shape the service
/// accepts: non-empty, without whitespace, and not starting in the query
/// or fragment, so that it names at least an authority or a path.
pub open spec fn is_valid_url(s: Seq<char>) -> bool {
    &&& s.len() > 0
    &&& s[0] != '?'
    &&& s[0] != '#'
    &&& forall|i: int|
        0 <= i < s.len() ==> s[i] != ' ' && s[i] != '\t' && s[i] != '\n' && s[i] != '\r'
}

/// Checks a client-supplied URL string for the accepted shape.
#[verifier::loop_isolation(false)]
pub fn valid_url(url: &str) -> (r: bool)
    ensures
        r == is_valid_url(url@),
{
    let n = url.unicode_len();
    if n == 0 {
        return false;
    }
    let first = url.get_char(0);
    if first == '?' || first == '#' {
        return false;
    }
    let mut i: usize = 0;
    while i < n
        invariant
            0 <= i <= n,
            forall|j: int|
                0 <= j < i ==> url@[j] != ' ' && url@[j] != '\t' && url@[j] != '\n' && url@[j]
                    != '\r',
        decreases n - i,
    {
        let c = url.get_char(i);
        if c == ' ' || c == '\t' || c == '\n' || c == '\r' {
            return false;
        }
        i += 1;
    }
    true
}

} // verus!
