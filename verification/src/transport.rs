//! One request/response exchange, seen from the verified side.
//!
//! The HTTP call itself happens outside the library; what is verified here
//! is everything the exchange decides locally: how a failure is classified
//! as retryable or fatal, and how a successful response body is turned
//! into discrete payload lines.

use vstd::prelude::*;
use vstd::string::StrSliceExecFns;
use vstd::string::StringExecFns;

use crate::sse::{parse_sse_to_json_lines, sse_decode};
use crate::text::{contains_seq, contains_str, is_blank, is_blank_str, line_views};

verus! {

/// A failed exchange. The network variant records what the HTTP client
/// reported of its error: whether it failed to connect, timed out, or
/// could not form the request, and the client's description of it.
pub enum TransportError {
    Network { connect: bool, timeout: bool, request: bool, detail: String },
    InvalidUtf8,
    Io { detail: String },
}

/// A network failure at the transport layer is worth retrying; a local
/// decoding or I/O failure is not, since retrying cannot fix it.
pub open spec fn retryable_spec(e: &TransportError) -> bool {
    match e {
        TransportError::Network { connect, timeout, request, .. } => *connect || *timeout
            || *request,
        TransportError::InvalidUtf8 => false,
        TransportError::Io { .. } => false,
    }
}

/// The description of a failure, as the pump reports it.
pub open spec fn error_text(e: &TransportError) -> Seq<char> {
    match e {
        TransportError::Network { detail, .. } => "network: "@ + detail@,
        TransportError::InvalidUtf8 => "invalid UTF-8 in response"@,
        TransportError::Io { detail } => "io: "@ + detail@,
    }
}

/// Whether a failed exchange should be retried.
pub fn is_retryable(e: &TransportError) -> (r: bool)
    ensures
        r == retryable_spec(e),
{
    match e {
        TransportError::Network { connect, timeout, request, .. } => *connect || *timeout
            || *request,
        TransportError::InvalidUtf8 => false,
        TransportError::Io { .. } => false,
    }
}

impl TransportError {
    /// The description of this failure.
    pub fn describe(&self) -> (r: String)
        ensures
            r@ == error_text(self),
    {
        match self {
            TransportError::Network { detail, .. } => {
                let mut r = String::from_str("network: ");
                r.append(detail.as_str());
                r
            },
            TransportError::InvalidUtf8 => String::from_str("invalid UTF-8 in response"),
            TransportError::Io { detail } => {
                let mut r = String::from_str("io: ");
                r.append(detail.as_str());
                r
            },
        }
    }
}

/// The result of one exchange: the ordered payload lines of a successful
/// response, or a classified failure with its description.
pub enum TransportOutcome {
    Success(Vec<String>),
    RetryableFailure(String),
    FatalFailure(String),
}

/// Classifies the result of one exchange into an outcome the pump acts on.
pub fn classify_outcome(res: Result<Vec<String>, TransportError>) -> (o: TransportOutcome)
    ensures
        match res {
            Ok(lines) => o == TransportOutcome::Success(lines),
            Err(e) => {
                &&& retryable_spec(&e) ==> (o matches TransportOutcome::RetryableFailure(d)
                    && d@ == error_text(&e))
                &&& !retryable_spec(&e) ==> (o matches TransportOutcome::FatalFailure(d) && d@
                    == error_text(&e))
            },
        },
{
    match res {
        Ok(lines) => TransportOutcome::Success(lines),
        Err(e) => {
            let d = e.describe();
            if is_retryable(&e) {
                TransportOutcome::RetryableFailure(d)
            } else {
                TransportOutcome::FatalFailure(d)
            }
        },
    }
}

/// The value of the authorization header attached when a bearer token is
/// configured.
pub fn bearer_header_value(token: &str) -> (r: String)
    ensures
        r@ == "Bearer "@ + token@,
{
    let mut r = String::from_str("Bearer ");
    r.append(token);
    r
}

/// The status that means "accepted, no body expected".
pub const ACCEPTED_NO_BODY: u16 = 202;

/// The content type marker that selects the event-stream decoder.
pub open spec fn event_stream_marker() -> Seq<char> {
    seq!['t', 'e', 'x', 't', '/', 'e', 'v', 'e', 'n', 't', '-', 's', 't', 'r', 'e', 'a', 'm']
}

/// The payload lines a successful response yields: none for an
/// accepted-no-body status or an all-whitespace body, the decoded events
/// of an event-stream body, and otherwise the body itself as the single
/// payload.
pub open spec fn decode_spec(status: u16, content_type: Seq<char>, body: Seq<char>) -> Seq<
    Seq<char>,
> {
    if status == ACCEPTED_NO_BODY {
        Seq::empty()
    } else if is_blank(body) {
        Seq::empty()
    } else if contains_seq(content_type, event_stream_marker()) {
        sse_decode(body)
    } else {
        seq![body]
    }
}

/// Turns a successful response into its ordered payload lines.
pub fn decode_response(status: u16, content_type: &str, body: &str) -> (out: Vec<String>)
    ensures
        line_views(out@) == decode_spec(status, content_type@, body@),
{
    if status == ACCEPTED_NO_BODY {
        let out: Vec<String> = Vec::new();
        proof {
            assert(line_views(out@) =~= Seq::<Seq<char>>::empty());
        }
        return out;
    }
    if is_blank_str(body) {
        let out: Vec<String> = Vec::new();
        proof {
            assert(line_views(out@) =~= Seq::<Seq<char>>::empty());
        }
        return out;
    }
    proof {
        reveal_strlit("text/event-stream");
        assert("text/event-stream"@ =~= event_stream_marker());
    }
    if contains_str(content_type, "text/event-stream") {
        parse_sse_to_json_lines(body)
    } else {
        let mut out: Vec<String> = Vec::new();
        out.push(String::from_str(body));
        proof {
            assert(line_views(out@) =~= seq![body@]);
        }
        out
    }
}

/// Turns one finished exchange into payload lines or a failure, deciding
/// in the right order: an accepted-no-body status yields no lines whether
/// or not the body was decodable text (`body` is what the response bytes
/// decoded to, or nothing when they were not valid text); only then does
/// an undecodable body count as the fatal decoding failure.
pub fn decode_exchange(status: u16, content_type: &str, body: Option<String>) -> (r: Result<
    Vec<String>,
    TransportError,
>)
    ensures
        (match body {
            Some(b) => r matches Ok(v) && line_views(v@) == decode_spec(
                status,
                content_type@,
                b@,
            ),
            None => {
                if status == ACCEPTED_NO_BODY {
                    r matches Ok(v) && v@.len() == 0
                } else {
                    r matches Err(e) && e is InvalidUtf8
                }
            },
        }),
{
    if status == ACCEPTED_NO_BODY {
        let v: Vec<String> = Vec::new();
        proof {
            assert(line_views(v@) =~= Seq::<Seq<char>>::empty());
        }
        return Ok(v);
    }
    match body {
        Some(b) => Ok(decode_response(status, content_type, b.as_str())),
        None => Err(TransportError::InvalidUtf8),
    }
}

} // verus!
