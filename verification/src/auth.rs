//! Bearer-token authorization.
//!
//! Requests carry an optional `Authorization: Bearer <token>` header; the
//! token must equal the configured secret byte for byte. When no secret is
//! configured, every request is allowed.

use vstd::prelude::*;
use crate::http_rules::ci_eq;

verus! {

/// Whether `h` starts with the word `bearer`, in any letter case,
/// followed by one space.
pub open spec fn has_bearer_prefix(h: Seq<char>) -> bool {
    &&& h.len() >= 7
    &&& ci_eq(h[0], 'b')
    &&& ci_eq(h[1], 'e')
    &&& ci_eq(h[2], 'a')
    &&& ci_eq(h[3], 'r')
    &&& ci_eq(h[4], 'e')
    &&& ci_eq(h[5], 'r')
    &&& h[6] == ' '
}

/// The token of a `Bearer <token>` authorization header, the `bearer`
/// prefix accepted in any case; `None` when the header has another shape
/// or the token spans more than one line.
pub open spec fn bearer_token_of(h: Seq<char>) -> Option<Seq<char>> {
    if has_bearer_prefix(h) && (forall|j: int| 7 <= j < h.len() ==> h[j] != '\n') {
        Some(h.skip(7))
    } else {
        None
    }
}

/// Extract the token from a "Bearer <token>" formatted authorization header.
#[verifier::loop_isolation(false)]
pub fn extract_bearer(header: &str) -> (r: Option<String>)
    ensures
        match bearer_token_of(header@) {
            Some(tok) => r is Some && r->0@ == tok,
            None => r is None,
        },
{
    let n = header.unicode_len();
    if n < 7 {
        return None;
    }
    let c0 = header.get_char(0);
    let c1 = header.get_char(1);
    let c2 = header.get_char(2);
    let c3 = header.get_char(3);
    let c4 = header.get_char(4);
    let c5 = header.get_char(5);
    let c6 = header.get_char(6);
    let prefixed = (c0 == 'b' || c0 == 'B') && (c1 == 'e' || c1 == 'E') && (c2 == 'a' || c2
        == 'A') && (c3 == 'r' || c3 == 'R') && (c4 == 'e' || c4 == 'E') && (c5 == 'r' || c5
        == 'R') && c6 == ' ';
    if !prefixed {
        return None;
    }
    let mut i: usize = 7;
    while i < n
        invariant
            7 <= i <= n,
            n == header@.len(),
            forall|j: int| 7 <= j < i ==> header@[j] != '\n',
        decreases n - i,
    {
        if header.get_char(i) == '\n' {
            return None;
        }
        i += 1;
    }
    let tok = crate::text::copy_range(header, 7, n);
    proof {
        assert(header@.subrange(7, n as int) =~= header@.skip(7));
    }
    Some(tok)
}

/// Whether a request is allowed: with no configured secret every request
/// passes; with one, the header must carry a bearer token equal to it.
pub open spec fn auth_allowed(secret: Option<Seq<char>>, header: Option<Seq<char>>) -> bool {
    match secret {
        None => true,
        Some(s) => match header {
            None => false,
            Some(h) => bearer_token_of(h) == Some(s),
        },
    }
}

/// Decides authorization for one request: allowed exactly when no secret
/// is configured, or the header's bearer token equals the secret.
pub fn check_auth(secret: Option<&String>, header: Option<&String>) -> (r: bool)
    ensures
        r == auth_allowed(
            match secret {
                Some(s) => Some(s@),
                None => None,
            },
            match header {
                Some(h) => Some(h@),
                None => None,
            },
        ),
{
    match secret {
        None => true,
        Some(s) => match header {
            None => false,
            Some(h) => match extract_bearer(h.as_str()) {
                Some(tok) => tok == *s,
                None => false,
            },
        },
    }
}

} // verus!
