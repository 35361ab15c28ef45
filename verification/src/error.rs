//! Errors surfaced to clients.
//!
//! An [`ErrorReport`] is a human-readable cause chain: a top message and
//! the messages of each underlying cause. An [`EndpointError`] classifies
//! a failure as one of the three client-visible kinds, each mapped to an
//! HTTP status code.

use vstd::prelude::*;
use crate::json::{json_quoted, json_quote};

verus! {

/// A human-readable error: a top message plus the message of each cause,
/// outermost first.
#[derive(Debug)]
pub struct ErrorReport {
    pub message: String,
    pub causes: Vec<String>,
}

/// The `Caused by: ` marker that prefixes each cause line.
pub open spec fn caused_by_prefix() -> Seq<char> {
    seq!['C', 'a', 'u', 's', 'e', 'd', ' ', 'b', 'y', ':', ' ']
}

/// One line per cause, each prefixed with `Caused by: ` and ended with a
/// newline.
pub open spec fn caused_lines(causes: Seq<Seq<char>>) -> Seq<char>
    decreases causes.len(),
{
    if causes.len() == 0 {
        Seq::empty()
    } else {
        caused_by_prefix() + causes[0] + seq!['\n'] + caused_lines(causes.drop_first())
    }
}

/// The display form of a cause chain: the message on its own line, then
/// one `Caused by: ` line per cause.
pub open spec fn report_text(message: Seq<char>, causes: Seq<Seq<char>>) -> Seq<char> {
    message + seq!['\n'] + caused_lines(causes)
}

/// Cause lines distribute over appending one cause at the end.
proof fn lemma_caused_lines_push(causes: Seq<Seq<char>>, c: Seq<char>)
    ensures
        caused_lines(causes.push(c)) == caused_lines(causes) + caused_by_prefix() + c + seq![
            '\n',
        ],
    decreases causes.len(),
{
    if causes.len() == 0 {
        let single = causes.push(c);
        assert(single.len() == 1);
        assert(single[0] == c);
        assert(single.drop_first() =~= Seq::<Seq<char>>::empty());
        assert(caused_lines(single.drop_first()) == Seq::<char>::empty());
        assert(caused_lines(single) == caused_by_prefix() + single[0] + seq!['\n'] + caused_lines(
            single.drop_first(),
        ));
        assert(caused_lines(causes) == Seq::<char>::empty());
        assert(caused_lines(single) =~= caused_lines(causes) + caused_by_prefix() + c + seq![
            '\n',
        ]);
    } else {
        assert(causes.push(c).drop_first() =~= causes.drop_first().push(c));
        lemma_caused_lines_push(causes.drop_first(), c);
        assert(caused_lines(causes.push(c)) =~= caused_lines(causes) + caused_by_prefix() + c
            + seq!['\n']);
    }
}

/// Display an error and its causes in a readable way: the top message,
/// then each cause on its own line prefixed by `Caused by: `.
#[verifier::loop_isolation(false)]
pub fn display_error(error: &ErrorReport) -> (r: String)
    ensures
        r@ == report_text(error.message@, error.causes.deep_view()),
{
    let mut r = error.message.clone();
    r.push('\n');
    let ghost all = error.causes.deep_view();
    let mut i: usize = 0;
    proof {
        assert(all.subrange(0, 0) =~= Seq::<Seq<char>>::empty());
        assert(r@ =~= error.message@ + seq!['\n'] + caused_lines(all.subrange(0, 0)));
    }
    while i < error.causes.len()
        invariant
            0 <= i <= error.causes.len(),
            r@ == error.message@ + seq!['\n'] + caused_lines(all.subrange(0, i as int)),
        decreases error.causes.len() - i,
    {
        let ghost r0 = r@;
        proof {
            reveal_strlit("Caused by: ");
            assert("Caused by: "@ =~= caused_by_prefix());
        }
        r.append("Caused by: ");
        r.append(error.causes[i].as_str());
        r.push('\n');
        proof {
            lemma_caused_lines_push(all.subrange(0, i as int), all[i as int]);
            assert(all.subrange(0, i + 1) =~= all.subrange(0, i as int).push(all[i as int]));
            assert(r@ =~= error.message@ + seq!['\n'] + caused_lines(all.subrange(0, i + 1)));
        }
        i += 1;
    }
    proof {
        assert(all.subrange(0, all.len() as int) =~= all);
    }
    r
}

/// An error that can bubble up into the endpoints and be translated into
/// an error response, or into the `error` field of a callback.
#[derive(Debug)]
pub enum EndpointError {
    /// Missing or wrong bearer token.
    Forbidden { cause: ErrorReport },
    /// A failure of the service itself: subprocess, upload, render or I/O.
    InternalServerError { cause: ErrorReport },
    /// Unacceptable input: malformed JSON, too many assets, an empty merge
    /// list, an oversized body, or an unusable filename.
    UnprocessableEntity { cause: ErrorReport },
}

/// A plain HTTP reply: a status code and a body.
#[derive(Debug)]
pub struct Reply {
    pub status: u16,
    pub body: String,
}

/// The body of an error reply: a JSON object with the display text under
/// the `message` key.
pub open spec fn message_body_text(msg: Seq<char>) -> Seq<char> {
    "{\"message\":"@ + json_quoted(msg) + "}"@
}

impl EndpointError {
    /// The cause chain carried by this error.
    pub open spec fn cause_of(&self) -> ErrorReport {
        match self {
            EndpointError::Forbidden { cause } => *cause,
            EndpointError::InternalServerError { cause } => *cause,
            EndpointError::UnprocessableEntity { cause } => *cause,
        }
    }

    /// The heading that names this kind of error.
    pub open spec fn top_line(&self) -> Seq<char> {
        match self {
            EndpointError::Forbidden { .. } => "Forbidden (403)"@,
            EndpointError::InternalServerError { .. } => "Internal Server Error (500)"@,
            EndpointError::UnprocessableEntity { .. } => "Unprocessable Entity (422)"@,
        }
    }

    /// The display form of this error: its heading, then its cause's
    /// message and each further cause, one `Caused by: ` line each.
    pub open spec fn display_text(&self) -> Seq<char> {
        report_text(
            self.top_line(),
            seq![self.cause_of().message@] + self.cause_of().causes.deep_view(),
        )
    }

    /// The HTTP status code of this kind of error.
    pub open spec fn spec_status_code(&self) -> u16 {
        match self {
            EndpointError::Forbidden { .. } => 403,
            EndpointError::InternalServerError { .. } => 500,
            EndpointError::UnprocessableEntity { .. } => 422,
        }
    }

    /// The HTTP status code of this kind of error.
    pub fn status_code(&self) -> (r: u16)
        ensures
            r == self.spec_status_code(),
    {
        match self {
            EndpointError::Forbidden { .. } => 403,
            EndpointError::InternalServerError { .. } => 500,
            EndpointError::UnprocessableEntity { .. } => 422,
        }
    }

    /// The display form of this error, for clients.
    pub fn display(&self) -> (r: String)
        ensures
            r@ == self.display_text(),
    {
        let cause = match self {
            EndpointError::Forbidden { cause } => cause,
            EndpointError::InternalServerError { cause } => cause,
            EndpointError::UnprocessableEntity { cause } => cause,
        };
        let mut full_causes: Vec<String> = Vec::new();
        full_causes.push(cause.message.clone());
        let mut i: usize = 0;
        while i < cause.causes.len()
            invariant
                0 <= i <= cause.causes.len(),
                full_causes.len() == i + 1,
                full_causes@[0]@ == cause.message@,
                forall|j: int| 1 <= j < i + 1 ==> (#[trigger] full_causes@[j])@ == cause.causes@[j
                    - 1]@,
            decreases cause.causes.len() - i,
        {
            full_causes.push(cause.causes[i].clone());
            i += 1;
        }
        proof {
            assert(full_causes.deep_view() =~= seq![cause.message@] + cause.causes.deep_view());
        }
        let top = match self {
            EndpointError::Forbidden { .. } => "Forbidden (403)",
            EndpointError::InternalServerError { .. } => "Internal Server Error (500)",
            EndpointError::UnprocessableEntity { .. } => "Unprocessable Entity (422)",
        };
        let report = ErrorReport { message: String::from_str(top), causes: full_causes };
        display_error(&report)
    }

    /// Translates this error into the HTTP reply the dispatcher sends:
    /// the status code of its kind, with the cause chain alone as the
    /// `message` JSON body for the client-attributable kinds, and an
    /// empty body for an internal error.
    pub fn to_response(&self) -> (r: Reply)
        ensures
            r.status == self.spec_status_code(),
            r.body@ == match self {
                EndpointError::InternalServerError { .. } => Seq::<char>::empty(),
                _ => message_body_text(
                    report_text(self.cause_of().message@, self.cause_of().causes.deep_view()),
                ),
            },
    {
        match self {
            EndpointError::InternalServerError { .. } => Reply {
                status: 500,
                body: String::new(),
            },
            _ => {
                let cause = match self {
                    EndpointError::Forbidden { cause } => cause,
                    EndpointError::InternalServerError { cause } => cause,
                    EndpointError::UnprocessableEntity { cause } => cause,
                };
                let msg = display_error(cause);
                let mut body = String::from_str("{\"message\":");
                body.append(json_quote(msg.as_str()).as_str());
                body.append("}");
                Reply { status: self.status_code(), body }
            },
        }
    }
}

} // verus!
