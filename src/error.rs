use std::collections::HashMap;

use vstd::prelude::*;
use vstd::string::StringExecFns;

use crate::outside::{error_text, transport_fault_text};

verus! {

/// The error that every failing call of the client reports: a message that is
/// always there, and the server's own error list when it sent one.
#[derive(Clone)]
pub struct GraphQLError {
    message: String,
    json: Option<Vec<GraphQLErrorMessage>>,
}

/// One entry of the `errors` list of a GraphQL response.
#[derive(Clone, Debug)]
pub struct GraphQLErrorMessage {
    pub message: String,
    pub locations: Option<Vec<GraphQLErrorLocation>>,
    pub extensions: Option<HashMap<String, String>>,
    pub path: Option<Vec<GraphQLErrorPathParam>>,
}

/// A place in the query text that an error entry points at.
#[derive(Clone, Copy, Debug, PartialEq, Eq)]
pub struct GraphQLErrorLocation {
    pub line: u32,
    pub column: u32,
}

/// One segment of the response path of an error entry: a field name or a list index.
#[derive(Clone, Debug)]
pub enum GraphQLErrorPathParam {
    String(String),
    Number(u32),
}

/// What a path segment holds.
pub enum PathSegment {
    Name(Seq<char>),
    Index(u32),
}

/// What an error entry holds.
pub struct ErrorMessageView {
    pub message: Seq<char>,
    pub locations: Option<Seq<GraphQLErrorLocation>>,
    pub extensions: Option<Map<String, String>>,
    pub path: Option<Seq<PathSegment>>,
}

/// What a client error holds.
pub struct ErrorView {
    pub message: Seq<char>,
    pub json: Option<Seq<ErrorMessageView>>,
}

impl View for GraphQLErrorPathParam {
    type V = PathSegment;

    open spec fn view(&self) -> PathSegment {
        match self {
            GraphQLErrorPathParam::String(s) => PathSegment::Name(s@),
            GraphQLErrorPathParam::Number(n) => PathSegment::Index(*n),
        }
    }
}

impl View for GraphQLErrorMessage {
    type V = ErrorMessageView;

    open spec fn view(&self) -> ErrorMessageView {
        ErrorMessageView {
            message: self.message@,
            locations: match self.locations {
                Some(l) => Some(l@),
                None => None,
            },
            extensions: match self.extensions {
                Some(e) => Some(e@),
                None => None,
            },
            path: match self.path {
                Some(p) => Some(p@.map_values(|s: GraphQLErrorPathParam| s@)),
                None => None,
            },
        }
    }
}

/// The views of a list of error entries, in order.
pub open spec fn messages_view(v: Seq<GraphQLErrorMessage>) -> Seq<ErrorMessageView> {
    v.map_values(|m: GraphQLErrorMessage| m@)
}

impl View for GraphQLError {
    type V = ErrorView;

    closed spec fn view(&self) -> ErrorView {
        ErrorView {
            message: self.message@,
            json: match self.json {
                Some(v) => Some(messages_view(v@)),
                None => None,
            },
        }
    }
}

/// The message that an error built from an error list alone carries.
pub open spec fn json_note() -> Seq<char> {
    "Look at json field for more details"@
}

/// One line for each entry of `ms`, holding its message.
pub open spec fn message_lines(ms: Seq<ErrorMessageView>) -> Seq<char>
    decreases ms.len(),
{
    if ms.len() == 0 {
        Seq::empty()
    } else {
        message_lines(ms.drop_last()) + "Message: "@ + ms.last().message + "\n"@
    }
}

/// The text of an error: its message on a line of its own, then one line for
/// each entry of its error list.
pub open spec fn rendering(e: ErrorView) -> Seq<char> {
    "\nGQLClient Error: "@ + e.message + "\n"@ + match e.json {
        Some(ms) => message_lines(ms),
        None => Seq::empty(),
    }
}

impl GraphQLErrorPathParam {
    fn copied(&self) -> (r: Self)
        ensures
            r@ == self@,
    {
        match self {
            GraphQLErrorPathParam::String(s) => GraphQLErrorPathParam::String(s.clone()),
            GraphQLErrorPathParam::Number(n) => GraphQLErrorPathParam::Number(*n),
        }
    }
}

impl GraphQLErrorMessage {
    /// A copy that holds the same entry.
    pub fn copied(&self) -> (r: Self)
        ensures
            r@ == self@,
    {
        let locations = match &self.locations {
            Some(l) => {
                let mut out: Vec<GraphQLErrorLocation> = Vec::new();
                let mut i: usize = 0;
                while i < l.len()
                    invariant
                        i <= l@.len(),
                        out@ == l@.subrange(0, i as int),
                    decreases l@.len() - i,
                {
                    out.push(l[i]);
                    i = i + 1;
                    assert(out@ =~= l@.subrange(0, i as int));
                }
                assert(out@ =~= l@);
                Some(out)
            },
            None => None,
        };
        let extensions = match &self.extensions {
            Some(e) => Some(e.clone()),
            None => None,
        };
        let path = match &self.path {
            Some(p) => {
                let mut out: Vec<GraphQLErrorPathParam> = Vec::new();
                let mut i: usize = 0;
                while i < p.len()
                    invariant
                        i <= p@.len(),
                        out@.len() == i,
                        forall|j: int| 0 <= j < i ==> (#[trigger] out@[j])@ == p@[j]@,
                    decreases p@.len() - i,
                {
                    out.push(p[i].copied());
                    i = i + 1;
                }
                assert(out@.map_values(|s: GraphQLErrorPathParam| s@) =~= p@.map_values(
                    |s: GraphQLErrorPathParam| s@,
                ));
                Some(out)
            },
            None => None,
        };
        GraphQLErrorMessage { message: self.message.clone(), locations, extensions, path }
    }
}

/// Copies a list of error entries, entry by entry.
fn copy_messages(v: &Vec<GraphQLErrorMessage>) -> (r: Vec<GraphQLErrorMessage>)
    ensures
        messages_view(r@) == messages_view(v@),
{
    let mut out: Vec<GraphQLErrorMessage> = Vec::new();
    let mut i: usize = 0;
    while i < v.len()
        invariant
            i <= v@.len(),
            out@.len() == i,
            forall|j: int| 0 <= j < i ==> (#[trigger] out@[j])@ == v@[j]@,
        decreases v@.len() - i,
    {
        out.push(v[i].copied());
        i = i + 1;
    }
    assert(messages_view(out@) =~= messages_view(v@));
    out
}

impl GraphQLError {
    /// An error with a message and no error list.
    pub fn with_text(message: &str) -> (r: Self)
        ensures
            r@ == (ErrorView { message: message@, json: None }),
    {
        GraphQLError { message: String::from_str(message), json: None }
    }

    /// An error with a message and the error list that the server sent.
    pub fn with_message_and_json(message: &str, json: Vec<GraphQLErrorMessage>) -> (r: Self)
        ensures
            r@ == (ErrorView { message: message@, json: Some(messages_view(json@)) }),
    {
        GraphQLError { message: String::from_str(message), json: Some(json) }
    }

    /// An error for a response whose `errors` list was present.
    pub fn with_json(json: Vec<GraphQLErrorMessage>) -> (r: Self)
        ensures
            r@ == (ErrorView { message: json_note(), json: Some(messages_view(json@)) }),
    {
        Self::with_message_and_json("Look at json field for more details", json)
    }

    /// An error for a fault of the transport (a connection refused, a timeout):
    /// reqwest's text of the fault, which begins with the name of its kind, and
    /// no error list.
    pub fn from_transport(error: &reqwest::Error) -> (r: Self)
        ensures
            r@.json is None,
            r@.message.len() > 0,
            transport_fault_text(r@.message),
    {
        let text = error_text(error);
        GraphQLError { message: text, json: None }
    }

    /// The message of the error.
    pub fn message(&self) -> (r: &str)
        ensures
            r@ == self@.message,
    {
        self.message.as_str()
    }

    /// A copy of the error list, if the error carries one.
    pub fn json(&self) -> (r: Option<Vec<GraphQLErrorMessage>>)
        ensures
            r is Some <==> self@.json is Some,
            r is Some ==> messages_view(r->Some_0@) == self@.json->Some_0,
    {
        match &self.json {
            Some(v) => Some(copy_messages(v)),
            None => None,
        }
    }

    /// The text of the error, as `format` writes it.
    pub fn to_string(&self) -> (r: String)
        ensures
            r@ == rendering(self@),
    {
        format(self)
    }
}

/// Writes an error for people: the message on a line of its own, then a line
/// `Message: ...` for each entry of the error list.
pub fn format(err: &GraphQLError) -> (r: String)
    ensures
        r@ == rendering(err@),
{
    let mut s = String::from_str("\nGQLClient Error: ");
    s.append(err.message.as_str());
    s.append("\n");
    match &err.json {
        None => {
            proof {
                assert(s@ =~= rendering(err@));
            }
            s
        },
        Some(v) => {
            let ghost head = s@;
            let ghost ms = messages_view(v@);
            assert(ms.subrange(0, 0) =~= Seq::<ErrorMessageView>::empty());
            let mut i: usize = 0;
            while i < v.len()
                invariant
                    i <= v@.len(),
                    ms == messages_view(v@),
                    s@ == head + message_lines(ms.subrange(0, i as int)),
                decreases v@.len() - i,
            {
                s.append("Message: ");
                s.append(v[i].message.as_str());
                s.append("\n");
                proof {
                    let next = ms.subrange(0, i + 1);
                    assert(next.drop_last() =~= ms.subrange(0, i as int));
                    assert(next.last() == v@[i as int]@);
                }
                i = i + 1;
            }
            assert(ms.subrange(0, v@.len() as int) =~= ms);
            assert(s@ =~= rendering(err@));
            s
        },
    }
}

} // verus!
