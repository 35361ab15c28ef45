//! Decisions of the HTTP plumbing: redirect handling, the filename carried
//! by a `Content-Disposition` header, and the running size cap on a
//! downloaded body.

use vstd::prelude::*;
use crate::text::occurs_at;
use crate::uri::{find_at, find_char_from, lemma_find_at_none};
use crate::error::{ErrorReport, EndpointError};

verus! {

/// What a GET should do next after one response.
#[derive(Debug)]
pub enum GetResult {
    /// The response is final; use it.
    Done,
    /// The response redirects to this location.
    Redirect(String),
}

/// The status codes that redirect.
pub open spec fn is_redirect_status(status: u16) -> bool {
    status == 301 || status == 302 || status == 307 || status == 308
}

/// Decides what a GET does with a response: follow a redirect status by
/// its `Location` header, treat a redirect without one as a hard error,
/// and accept any other response as final.
pub fn determine_get_result(status: u16, location: Option<&String>) -> (r: Result<
    GetResult,
    EndpointError,
>)
    ensures
        match r {
            Ok(GetResult::Done) => !is_redirect_status(status),
            Ok(GetResult::Redirect(l)) => is_redirect_status(status) && location is Some
                && l@ == location->0@,
            Err(e) => is_redirect_status(status) && location is None && (e matches
            EndpointError::UnprocessableEntity { cause } && cause.message@
                == "Redirect without Location header"@),
        },
{
    if status == 301 || status == 302 || status == 307 || status == 308 {
        match location {
            Some(l) => Ok(GetResult::Redirect(l.clone())),
            None => Err(
                EndpointError::UnprocessableEntity {
                    cause: ErrorReport {
                        message: String::from_str("Redirect without Location header"),
                        causes: Vec::new(),
                    },
                },
            ),
        }
    } else {
        Ok(GetResult::Done)
    }
}

/// Blank characters trimmed around header parameters.
pub open spec fn is_blank(c: char) -> bool {
    c == ' ' || c == '\t'
}

/// The length of the blank prefix of `s`.
pub open spec fn blank_lead(s: Seq<char>) -> nat
    decreases s.len(),
{
    if s.len() > 0 && is_blank(s[0]) {
        1 + blank_lead(s.drop_first())
    } else {
        0
    }
}

/// The length of the blank suffix of `s`.
pub open spec fn blank_trail(s: Seq<char>) -> nat
    decreases s.len(),
{
    if s.len() > 0 && is_blank(s.last()) {
        1 + blank_trail(s.drop_last())
    } else {
        0
    }
}

/// `s` without its blank prefix and suffix.
pub open spec fn trimmed_blanks(s: Seq<char>) -> Seq<char> {
    if blank_lead(s) == s.len() {
        Seq::empty()
    } else {
        s.subrange(blank_lead(s) as int, s.len() - blank_trail(s))
    }
}

/// A scan that saw `k` blanks and then a boundary has found the blank
/// prefix.
proof fn lemma_blank_lead(s: Seq<char>, k: int)
    requires
        0 <= k <= s.len(),
        forall|j: int| 0 <= j < k ==> is_blank(s[j]),
        k == s.len() || !is_blank(s[k]),
    ensures
        blank_lead(s) == k,
    decreases k,
{
    if k == 0 {
    } else {
        assert(is_blank(s[0]));
        let rest = s.drop_first();
        assert(forall|j: int| 0 <= j < k - 1 ==> is_blank(#[trigger] rest[j]));
        assert(k - 1 == rest.len() || !is_blank(rest[k - 1]));
        lemma_blank_lead(rest, k - 1);
    }
}

/// A scan from the end that saw `k` blanks and then a boundary has found
/// the blank suffix.
proof fn lemma_blank_trail(s: Seq<char>, k: int)
    requires
        0 <= k <= s.len(),
        forall|j: int| s.len() - k <= j < s.len() ==> is_blank(s[j]),
        k == s.len() || !is_blank(s[s.len() - k - 1]),
    ensures
        blank_trail(s) == k,
    decreases k,
{
    if k == 0 {
    } else {
        assert(is_blank(s.last()));
        let rest = s.drop_last();
        assert(forall|j: int| rest.len() - (k - 1) <= j < rest.len() ==> is_blank(
            #[trigger] rest[j],
        ));
        assert(k - 1 == rest.len() || !is_blank(rest[rest.len() - (k - 1) - 1]));
        lemma_blank_trail(rest, k - 1);
    }
}

/// Copies `s` without its leading and trailing blanks.
#[verifier::loop_isolation(false)]
fn trim_blanks(s: &str) -> (r: String)
    ensures
        r@ == trimmed_blanks(s@),
{
    let n = s.unicode_len();
    let mut a: usize = 0;
    while a < n && (s.get_char(a) == ' ' || s.get_char(a) == '\t')
        invariant
            0 <= a <= n,
            forall|j: int| 0 <= j < a ==> is_blank(s@[j]),
        decreases n - a,
    {
        a += 1;
    }
    proof {
        lemma_blank_lead(s@, a as int);
    }
    if a == n {
        proof {
            assert(trimmed_blanks(s@) =~= Seq::<char>::empty());
        }
        return String::new();
    }
    let mut b: usize = n;
    while b > a && (s.get_char(b - 1) == ' ' || s.get_char(b - 1) == '\t')
        invariant
            a <= b <= n,
            forall|j: int| b <= j < n ==> is_blank(s@[j]),
        decreases b,
    {
        b -= 1;
    }
    proof {
        assert(b > a);
        assert(!is_blank(s@[a as int]));
        assert(!is_blank(s@[b - 1]));
        lemma_blank_trail(s@, (n - b) as int);
    }
    crate::text::copy_range(s, a, b)
}

/// Case-insensitive match of one character against a lower-case letter.
pub open spec fn ci_eq(c: char, lower: char) -> bool {
    c == lower || c as u32 == lower as u32 - 32
}

/// Whether a trimmed header segment is a `filename=` parameter: the key
/// `filename` in any case, immediately followed by `=`.
pub open spec fn is_filename_param(t: Seq<char>) -> bool {
    &&& t.len() >= 9
    &&& ci_eq(t[0], 'f')
    &&& ci_eq(t[1], 'i')
    &&& ci_eq(t[2], 'l')
    &&& ci_eq(t[3], 'e')
    &&& ci_eq(t[4], 'n')
    &&& ci_eq(t[5], 'a')
    &&& ci_eq(t[6], 'm')
    &&& ci_eq(t[7], 'e')
    &&& t[8] == '='
}

/// A parameter value without its surrounding double quotes, when it has
/// both.
pub open spec fn unquoted(v: Seq<char>) -> Seq<char> {
    if v.len() >= 2 && v[0] == '"' && v.last() == '"' {
        v.subrange(1, v.len() - 1)
    } else {
        v
    }
}

/// The filename parameter among the `;`-separated segments, if any: each
/// segment is trimmed of blanks, the first one shaped `filename=<value>`
/// wins, and a quoted value loses its quotes.
pub open spec fn cd_filename_in(segs: Seq<Seq<char>>) -> Option<Seq<char>>
    decreases segs.len(),
{
    if segs.len() == 0 {
        None
    } else {
        let t = trimmed_blanks(segs[0]);
        if is_filename_param(t) {
            Some(unquoted(t.skip(9)))
        } else {
            cd_filename_in(segs.drop_first())
        }
    }
}

/// The `;`-separated segments of a header value.
pub open spec fn split_params(s: Seq<char>) -> Seq<Seq<char>>
    decreases s.len(),
{
    match find_at(s, seq![';'], 0) {
        Some(k) => if 0 <= k < s.len() {
            seq![s.subrange(0, k)] + split_params(s.skip(k + 1))
        } else {
            seq![s]
        },
        None => seq![s],
    }
}

/// The filename named by a `Content-Disposition` header value, if any.
pub open spec fn content_disposition_filename(h: Seq<char>) -> Option<Seq<char>> {
    cd_filename_in(split_params(h))
}

/// Whether the trimmed segment is a `filename=` parameter, at run time.
fn filename_param(t: &str) -> (r: bool)
    ensures
        r == is_filename_param(t@),
{
    let n = t.unicode_len();
    if n < 9 {
        return false;
    }
    let c0 = t.get_char(0);
    let c1 = t.get_char(1);
    let c2 = t.get_char(2);
    let c3 = t.get_char(3);
    let c4 = t.get_char(4);
    let c5 = t.get_char(5);
    let c6 = t.get_char(6);
    let c7 = t.get_char(7);
    let c8 = t.get_char(8);
    (c0 == 'f' || c0 == 'F') && (c1 == 'i' || c1 == 'I') && (c2 == 'l' || c2 == 'L') && (c3 == 'e'
        || c3 == 'E') && (c4 == 'n' || c4 == 'N') && (c5 == 'a' || c5 == 'A') && (c6 == 'm' || c6
        == 'M') && (c7 == 'e' || c7 == 'E') && c8 == '='
}

/// Strips surrounding double quotes from a parameter value, when both are
/// there.
#[verifier::loop_isolation(false)]
fn strip_quotes(v: &str) -> (r: String)
    ensures
        r@ == unquoted(v@),
{
    let n = v.unicode_len();
    if n >= 2 && v.get_char(0) == '"' && v.get_char(n - 1) == '"' {
        crate::text::copy_range(v, 1, n - 1)
    } else {
        String::from_str(v)
    }
}

/// Parses a `Content-Disposition` header value for a `filename` parameter.
/// Any disposition type is accepted, an empty one included; the first
/// `filename=` parameter's value is returned, without surrounding quotes.
#[verifier::loop_isolation(false)]
pub fn filename_of_content_disposition(header: &str) -> (r: Option<String>)
    ensures
        match content_disposition_filename(header@) {
            Some(name) => r is Some && r->0@ == name,
            None => r is None,
        },
{
    let n = header.unicode_len();
    let mut start: usize = 0;
    proof {
        assert(header@.skip(0) =~= header@);
    }
    loop
        invariant
            0 <= start <= n,
            n == header@.len(),
            content_disposition_filename(header@) == cd_filename_in(
                split_params(header@.skip(start as int)),
            ),
        decreases n - start,
    {
        let ghost piece = header@.skip(start as int);
        let k = find_char_from(header, start, ';');
        let ghost segs = split_params(piece);
        proof {
            // Relate the found boundary to the split of this piece.
            if k < n {
                assert(piece[k - start] == ';');
                assert(forall|j: int| 0 <= j < k - start ==> piece[j] != ';');
                assert(occurs_at(piece, seq![';'], k - start)) by {
                    assert(piece.subrange(k - start, k - start + 1) =~= seq![';']);
                }
                assert(forall|j: int| 0 <= j < k - start ==> !occurs_at(piece, seq![';'], j)) by {
                    assert forall|j: int| 0 <= j < k - start implies !occurs_at(
                        piece,
                        seq![';'],
                        j,
                    ) by {
                        assert(piece.subrange(j, j + 1)[0] == piece[j]);
                    }
                }
                crate::uri::lemma_find_at_found(piece, seq![';'], 0, k - start);
                assert(segs == seq![piece.subrange(0, k - start)] + split_params(
                    piece.skip(k - start + 1),
                ));
            } else {
                assert(forall|j: int| 0 <= j ==> !occurs_at(piece, seq![';'], j)) by {
                    assert forall|j: int| 0 <= j && j + 1 <= piece.len() implies !occurs_at(
                        piece,
                        seq![';'],
                        j,
                    ) by {
                        assert(piece.subrange(j, j + 1)[0] == piece[j]);
                    }
                }
                lemma_find_at_none(piece, seq![';'], 0);
                assert(segs == seq![piece]);
            }
            assert(piece.subrange(0, k - start) =~= header@.subrange(start as int, k as int));
        }
        let seg = crate::text::copy_range(header, start, k);
        let t = trim_blanks(seg.as_str());
        if filename_param(t.as_str()) {
            let m = t.unicode_len();
            let value = crate::text::copy_range(t.as_str(), 9, m);
            proof {
                assert(t@.subrange(9, t@.len() as int) =~= t@.skip(9));
            }
            return Some(strip_quotes(value.as_str()));
        }
        proof {
            assert(!is_filename_param(trimmed_blanks(segs[0])));
            assert(cd_filename_in(segs) == cd_filename_in(segs.drop_first()));
        }
        if k == n {
            proof {
                assert(segs.drop_first() =~= Seq::<Seq<char>>::empty());
            }
            return None;
        }
        proof {
            assert(segs.drop_first() =~= split_params(piece.skip(k - start + 1)));
            assert(piece.skip(k - start + 1) =~= header@.skip(k + 1));
        }
        start = k + 1;
    }
}

/// The running byte count of one download, held against the configured
/// per-asset cap.
pub struct DownloadMeter {
    pub received: u64,
    pub limit: u32,
}

impl DownloadMeter {
    /// A fresh meter for one download under `limit` bytes.
    pub fn new(limit: u32) -> (r: Self)
        ensures
            r.received == 0,
            r.limit == limit,
    {
        DownloadMeter { received: 0, limit }
    }

    /// Accounts one chunk of a streamed body. The chunk is accepted
    /// exactly when the running total stays within the cap; the first
    /// chunk that would push the total past the cap is refused, and the
    /// download is abandoned.
    pub fn add_chunk(&mut self, len: usize) -> (r: Result<(), EndpointError>)
        requires
            old(self).received <= old(self).limit,
        ensures
            final(self).limit == old(self).limit,
            r is Ok <==> old(self).received + len <= old(self).limit,
            r is Ok ==> final(self).received == old(self).received + len,
            r is Err ==> final(self).received == old(self).received && (r->Err_0 matches
                EndpointError::UnprocessableEntity { cause } && cause.message@
                == "File exceeded max asset size"@),
    {
        let room: u64 = (self.limit as u64) - self.received;
        if (len as u64) > room {
            Err(
                EndpointError::UnprocessableEntity {
                    cause: ErrorReport {
                        message: String::from_str("File exceeded max asset size"),
                        causes: Vec::new(),
                    },
                },
            )
        } else {
            self.received = self.received + (len as u64);
            Ok(())
        }
    }
}

} // verus!
