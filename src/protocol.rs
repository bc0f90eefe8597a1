//! The request/response protocol of one query: the body that is sent, the
//! redirects that are followed, and what a response means.

use std::collections::HashMap;

use vstd::prelude::*;
use vstd::string::StringExecFns;

use crate::error::{json_note, messages_view, ErrorView, GraphQLError, GraphQLErrorMessage};
use crate::outside::json_quoted;
use crate::text::{decimal, decimal_of, has_prefix, starts_with};

verus! {

/// The most requests that one query sends, the first one and the redirects
/// that follow it together.
pub const MAX_REQUESTS: u64 = 10;

/// The envelope of a GraphQL response. Either field may be there without the
/// other: both (a partial success), one, or neither.
pub struct ResponseEnvelope<K> {
    pub data: Option<K>,
    pub errors: Option<Vec<GraphQLErrorMessage>>,
}

/// What the transport got back for a request.
pub enum Reply<K> {
    /// The response names a `Location`: its text, or why it could not be read
    /// as text.
    Redirect(Result<String, String>),
    /// The body of the response could not be read; the transport's account of it.
    Unreadable(String),
    /// The status, the body text, and the envelope read from it or why it
    /// could not be read.
    Received { status: u16, body: String, envelope: Result<ResponseEnvelope<K>, String> },
}

/// What the caller does next.
pub enum Step<K> {
    /// Send the query again, to the session's new endpoint.
    Follow,
    /// The query is over, with this result.
    Finish(Result<Option<K>, GraphQLError>),
}

/// One request that the transport is to send.
pub struct OutboundRequest {
    pub url: String,
    pub body: String,
    pub headers: Option<HashMap<String, String>>,
}

/// The state of one query between its requests.
pub struct QuerySession {
    /// the endpoint the client was set up with
    pub original: String,
    /// the scheme of the original endpoint
    pub scheme: String,
    /// the host of the original endpoint
    pub host: String,
    /// where the next request goes
    pub endpoint: String,
    /// the requests sent so far, the next one included
    pub hops: u64,
    /// the request body, the same for every request
    pub body: String,
}

/// Whether an HTTP status is a success status (2xx).
pub open spec fn is_success_status(status: u16) -> bool {
    200 <= status <= 299
}

/// The body of a request: the query and its variables in a JSON object.
pub open spec fn request_body(query: Seq<char>, variables: Seq<char>) -> Seq<char> {
    "{\"query\":"@ + json_quoted(query) + ",\"variables\":"@ + variables + "}"@
}

/// Where a redirect to `location` goes: an absolute location as it is; a
/// path below the scheme and host of the original endpoint.
pub open spec fn resolved_target(scheme: Seq<char>, host: Seq<char>, location: Seq<char>) -> Seq<
    char,
> {
    if has_prefix(location, "http://"@) || has_prefix(location, "https://"@) {
        location
    } else if has_prefix(location, "/"@) {
        scheme + "://"@ + host + location
    } else {
        scheme + "://"@ + host + "/"@ + location
    }
}

/// The request count after one more redirect, or `None` where the query has
/// sent as many requests as it may.
pub open spec fn redirect_step(hops: u64) -> Option<u64> {
    if hops >= MAX_REQUESTS {
        None
    } else {
        Some((hops + 1) as u64)
    }
}

/// The request count after `n` redirects in a row, or `None` where the query
/// gave up on the way.
pub open spec fn hops_after(hops: u64, n: nat) -> Option<u64>
    decreases n,
{
    if n == 0 {
        Some(hops)
    } else {
        match hops_after(hops, (n - 1) as nat) {
            Some(h) => redirect_step(h),
            None => None,
        }
    }
}

/// The message of a query that met more redirects than it may follow.
pub open spec fn too_many_redirects_message(original: Seq<char>) -> Seq<char> {
    "too many redirects: "@ + original
}

/// The message of a redirect whose `Location` is not text.
pub open spec fn bad_location_message(details: Seq<char>) -> Seq<char> {
    "Failed to parse response header: Location. "@ + details
}

/// The message of a response whose body could not be read.
pub open spec fn unreadable_message(details: Seq<char>) -> Seq<char> {
    "Can not get response: "@ + details
}

/// The message of a body that gives no envelope, with the body itself.
pub open spec fn parse_failure_message(details: Seq<char>, body: Seq<char>) -> Seq<char> {
    "Failed to parse response: "@ + details + ". The response body is: "@ + body
}

/// The message of a response whose status is no success, with the status.
pub open spec fn status_message(status: u16) -> Seq<char> {
    "The response is ["@ + decimal_of(status as nat) + "]"@
}

/// An error with a message and no error list.
pub open spec fn text_error(message: Seq<char>) -> ErrorView {
    ErrorView { message, json: None }
}

/// A result, with its error seen through its view.
pub open spec fn result_view<T>(r: Result<T, GraphQLError>) -> Result<T, ErrorView> {
    match r {
        Ok(v) => Ok(v),
        Err(e) => Err(e@),
    }
}

/// What a response means. A body that gives no envelope is a parse error. A
/// status that is no success is an error that names the status and keeps the
/// server's error list. Then an error list, even an empty one, makes the query
/// fail. Else the query returns the data, which may be absent.
pub open spec fn classified<K>(
    status: u16,
    body: Seq<char>,
    envelope: Result<ResponseEnvelope<K>, String>,
) -> Result<Option<K>, ErrorView> {
    match envelope {
        Err(details) => Err(text_error(parse_failure_message(details@, body))),
        Ok(env) => if !is_success_status(status) {
            Err(
                ErrorView {
                    message: status_message(status),
                    json: Some(
                        match env.errors {
                            Some(e) => messages_view(e@),
                            None => Seq::empty(),
                        },
                    ),
                },
            )
        } else {
            match env.errors {
                Some(e) => Err(ErrorView { message: json_note(), json: Some(messages_view(e@)) }),
                None => Ok(env.data),
            }
        },
    }
}

/// Reads a response: see `classified`.
pub fn classify_response<K>(
    status: u16,
    body: &str,
    envelope: Result<ResponseEnvelope<K>, String>,
) -> (r: Result<Option<K>, GraphQLError>)
    ensures
        result_view(r) == classified(status, body@, envelope),
{
    match envelope {
        Err(details) => {
            let mut m = String::from_str("Failed to parse response: ");
            m.append(details.as_str());
            m.append(". The response body is: ");
            m.append(body);
            Err(GraphQLError::with_text(m.as_str()))
        },
        Ok(env) => {
            let ResponseEnvelope { data, errors } = env;
            if status < 200 || status > 299 {
                let mut m = String::from_str("The response is [");
                let digits = decimal(status);
                m.append(digits.as_str());
                m.append("]");
                let list = match errors {
                    Some(e) => e,
                    None => Vec::new(),
                };
                proof {
                    assert(messages_view(Seq::<GraphQLErrorMessage>::empty()) =~= Seq::empty());
                }
                Err(GraphQLError::with_message_and_json(m.as_str(), list))
            } else {
                match errors {
                    Some(e) => Err(GraphQLError::with_json(e)),
                    None => Ok(data),
                }
            }
        },
    }
}

/// Where a redirect to `location` goes, from an endpoint with the given
/// scheme and host.
pub fn redirect_target(scheme: &str, host: &str, location: &str) -> (r: String)
    ensures
        r@ == resolved_target(scheme@, host@, location@),
{
    if starts_with(location, "http://") || starts_with(location, "https://") {
        return String::from_str(location);
    }
    let mut s = String::from_str(scheme);
    s.append("://");
    s.append(host);
    if !starts_with(location, "/") {
        s.append("/");
    }
    s.append(location);
    s
}

fn text_failure<K>(prefix: &str, details: &str) -> (r: Step<K>)
    ensures
        r matches Step::Finish(Err(e)) && e@ == text_error(prefix@ + details@),
{
    let mut m = String::from_str(prefix);
    m.append(details);
    Step::Finish(Err(GraphQLError::with_text(m.as_str())))
}

impl QuerySession {
    /// Takes what the transport got back for the last request, and says what
    /// comes next. A redirect moves the session to its target, unless the query
    /// has sent as many requests as it may; anything else ends the query.
    pub fn on_reply<K>(&mut self, reply: Reply<K>) -> (r: Step<K>)
        ensures
            final(self).original == old(self).original,
            final(self).scheme == old(self).scheme,
            final(self).host == old(self).host,
            final(self).body == old(self).body,
            match reply {
                Reply::Redirect(Ok(location)) => match redirect_step(old(self).hops) {
                    Some(h) => r is Follow && final(self).hops == h && final(self).endpoint@
                        == resolved_target(old(self).scheme@, old(self).host@, location@),
                    None => r matches Step::Finish(Err(e)) && e@ == text_error(
                        too_many_redirects_message(old(self).original@),
                    ),
                },
                Reply::Redirect(Err(details)) => r matches Step::Finish(Err(e)) && e@
                    == text_error(bad_location_message(details@)),
                Reply::Unreadable(details) => r matches Step::Finish(Err(e)) && e@ == text_error(
                    unreadable_message(details@),
                ),
                Reply::Received { status, body, envelope } => r matches Step::Finish(res)
                    && result_view(res) == classified(status, body@, envelope),
            },
    {
        match reply {
            Reply::Redirect(Ok(location)) => {
                if self.hops >= MAX_REQUESTS {
                    text_failure("too many redirects: ", self.original.as_str())
                } else {
                    self.endpoint = redirect_target(
                        self.scheme.as_str(),
                        self.host.as_str(),
                        location.as_str(),
                    );
                    self.hops = self.hops + 1;
                    Step::Follow
                }
            },
            Reply::Redirect(Err(details)) => text_failure(
                "Failed to parse response header: Location. ",
                details.as_str(),
            ),
            Reply::Unreadable(details) => text_failure("Can not get response: ", details.as_str()),
            Reply::Received { status, body, envelope } => Step::Finish(
                classify_response(status, body.as_str(), envelope),
            ),
        }
    }
}

} // verus!
