//! The request that matchers look at: a fully buffered HTTP request held as
//! plain values.

use crate::mappers::KV;
use vstd::prelude::*;
use vstd::string::StringExecFns;

verus! {

/// An HTTP request with its body read into memory.
pub struct Request {
    /// The method, such as `GET`.
    pub method: String,
    /// The path component of the URI.
    pub path: String,
    /// The query component of the URI, where the URI has one.
    pub query: Option<String>,
    /// The headers, in the order they were received.
    pub headers: Vec<KV>,
    /// The whole body.
    pub body: Vec<u8>,
}

/// What a request is: its parts as text, headers and bytes.
pub struct RequestView {
    pub method: Seq<char>,
    pub path: Seq<char>,
    pub query: Option<Seq<char>>,
    pub headers: Seq<KV>,
    pub body: Seq<u8>,
}

impl View for Request {
    type V = RequestView;

    open spec fn view(&self) -> RequestView {
        RequestView {
            method: self.method@,
            path: self.path@,
            query: opt_view(self.query),
            headers: self.headers@,
            body: self.body@,
        }
    }
}

/// The text of an optional string.
pub open spec fn opt_view(s: Option<String>) -> Option<Seq<char>> {
    match s {
        Some(t) => Some(t@),
        None => None,
    }
}

/// The query text that matchers see: the query, or the empty text where the
/// URI has no query.
pub open spec fn query_text(req: RequestView) -> Seq<char> {
    match req.query {
        Some(q) => q,
        None => Seq::empty(),
    }
}

/// What http's URI parser makes of a text: `None` where it refuses it, else
/// the URI's path and its query, if any.
pub uninterp spec fn uri_parts(s: Seq<char>) -> Option<(Seq<char>, Option<Seq<char>>)>;

/// Relies on `http::Uri`'s `FromStr` parser and on `Uri::path` and
/// `Uri::query`, for the parts of a URI text.
#[verifier::external_body]
fn split_uri(s: &str) -> (r: Option<(String, Option<String>)>)
    ensures
        (match r {
            Some((p, q)) => uri_parts(s@) == Some((p@, opt_view(q))),
            None => uri_parts(s@) is None,
        }),
{
    match s.parse::<http::Uri>() {
        Ok(u) => Some((u.path().to_string(), u.query().map(|q| q.to_string()))),
        Err(_) => None,
    }
}

impl Request {
    /// A request with the given method, URI, headers and body. `None` where
    /// the URI text is not a URI.
    pub fn new(method: &str, uri: &str, headers: Vec<KV>, body: Vec<u8>) -> (r: Option<Request>)
        ensures
            r is Some <==> uri_parts(uri@) is Some,
            r matches Some(req) ==> {
                &&& req.method@ == method@
                &&& uri_parts(uri@) == Some((req.path@, opt_view(req.query)))
                &&& req.headers@ == headers@
                &&& req.body@ == body@
            },
    {
        match split_uri(uri) {
            Some((path, query)) => Some(
                Request { method: String::from_str(method), path, query, headers, body },
            ),
            None => None,
        }
    }
}

} // verus!
