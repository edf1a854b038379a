//! Mappers that extract one part of a request and hand it to an inner mapper.

use crate::mappers::{kvs_view, wrap, wrapped, Contains, Equals, Mapper, KV};
use crate::request::{query_text, Request, RequestView};
use vstd::prelude::*;
use vstd::string::StringExecFns;

verus! {

/// Extract the method from the request and pass it to the next mapper.
pub fn method<M>(inner: M) -> (r: Method<M>)
    ensures
        r.0 == inner,
{
    Method(inner)
}

/// The mapper returned by `method`.
pub struct Method<M>(pub M);

impl<M: Mapper<String>> Mapper<Request> for Method<M> {
    type Out = M::Out;

    open spec fn spec_map(&self, input: RequestView) -> M::Out {
        self.0.spec_map(input.method)
    }

    open spec fn spec_describe(&self) -> Seq<char> {
        wrapped("Method"@, self.0.spec_describe())
    }

    fn map(&self, input: &Request) -> (r: M::Out) {
        self.0.map(&input.method)
    }

    fn describe(&self) -> (r: String) {
        wrap("Method", self.0.describe())
    }
}

/// Extract the path from the request and pass it to the next mapper.
pub fn path<M>(inner: M) -> (r: Path<M>)
    ensures
        r.0 == inner,
{
    Path(inner)
}

/// The mapper returned by `path`.
pub struct Path<M>(pub M);

impl<M: Mapper<String>> Mapper<Request> for Path<M> {
    type Out = M::Out;

    open spec fn spec_map(&self, input: RequestView) -> M::Out {
        self.0.spec_map(input.path)
    }

    open spec fn spec_describe(&self) -> Seq<char> {
        wrapped("Path"@, self.0.spec_describe())
    }

    fn map(&self, input: &Request) -> (r: M::Out) {
        self.0.map(&input.path)
    }

    fn describe(&self) -> (r: String) {
        wrap("Path", self.0.describe())
    }
}

/// Extract the query from the request and pass it to the next mapper; a
/// request without a query passes the empty text.
pub fn query<M>(inner: M) -> (r: Query<M>)
    ensures
        r.0 == inner,
{
    Query(inner)
}

/// The mapper returned by `query`.
pub struct Query<M>(pub M);

impl<M: Mapper<String>> Mapper<Request> for Query<M> {
    type Out = M::Out;

    open spec fn spec_map(&self, input: RequestView) -> M::Out {
        self.0.spec_map(query_text(input))
    }

    open spec fn spec_describe(&self) -> Seq<char> {
        wrapped("Query"@, self.0.spec_describe())
    }

    fn map(&self, input: &Request) -> (r: M::Out) {
        match &input.query {
            Some(q) => self.0.map(q),
            None => {
                let empty = String::new();
                self.0.map(&empty)
            }
        }
    }

    fn describe(&self) -> (r: String) {
        wrap("Query", self.0.describe())
    }
}

/// Extract the headers from the request and pass the sequence, in received
/// order, to the next mapper.
pub fn headers<M>(inner: M) -> (r: Headers<M>)
    ensures
        r.0 == inner,
{
    Headers(inner)
}

/// The mapper returned by `headers`.
pub struct Headers<M>(pub M);

impl<M: Mapper<Vec<KV>>> Mapper<Request> for Headers<M> {
    type Out = M::Out;

    open spec fn spec_map(&self, input: RequestView) -> M::Out {
        self.0.spec_map(input.headers)
    }

    open spec fn spec_describe(&self) -> Seq<char> {
        wrapped("Headers"@, self.0.spec_describe())
    }

    fn map(&self, input: &Request) -> (r: M::Out) {
        self.0.map(&input.headers)
    }

    fn describe(&self) -> (r: String) {
        wrap("Headers", self.0.describe())
    }
}

/// Extract the body from the request and pass its bytes to the next mapper.
pub fn body<M>(inner: M) -> (r: Body<M>)
    ensures
        r.0 == inner,
{
    Body(inner)
}

/// The mapper returned by `body`.
pub struct Body<M>(pub M);

impl<M: Mapper<Vec<u8>>> Mapper<Request> for Body<M> {
    type Out = M::Out;

    open spec fn spec_map(&self, input: RequestView) -> M::Out {
        self.0.spec_map(input.body)
    }

    open spec fn spec_describe(&self) -> Seq<char> {
        wrapped("Body"@, self.0.spec_describe())
    }

    fn map(&self, input: &Request) -> (r: M::Out) {
        self.0.map(&input.body)
    }

    fn describe(&self) -> (r: String) {
        wrap("Body", self.0.describe())
    }
}

/// A matcher for both method and path: true where both match. The method is
/// tried first, and the path only where the method matched.
pub fn method_path<M, P>(method: M, path: P) -> (r: MethodPath<M, P>)
    ensures
        r.method == method,
        r.path == path,
{
    MethodPath { method, path }
}

/// The mapper returned by `method_path`.
pub struct MethodPath<M, P> {
    pub method: M,
    pub path: P,
}

/// `MethodPath(method, path)`: the rendering of a method and path matcher.
pub open spec fn method_path_text(method: Seq<char>, path: Seq<char>) -> Seq<char> {
    wrapped("MethodPath"@, method + seq![',', ' '] + path)
}

impl<M: Mapper<String, Out = bool>, P: Mapper<String, Out = bool>> Mapper<Request> for MethodPath<
    M,
    P,
> {
    type Out = bool;

    open spec fn spec_map(&self, input: RequestView) -> bool {
        self.method.spec_map(input.method) && self.path.spec_map(input.path)
    }

    open spec fn spec_describe(&self) -> Seq<char> {
        method_path_text(self.method.spec_describe(), self.path.spec_describe())
    }

    fn map(&self, input: &Request) -> (r: bool) {
        self.method.map(&input.method) && self.path.map(&input.path)
    }

    fn describe(&self) -> (r: String) {
        let mut inner = self.method.describe();
        inner.append(", ");
        let p = self.path.describe();
        inner.append(p.as_str());
        proof {
            reveal_strlit(", ");
            assert(inner@ =~= self.method.spec_describe() + seq![',', ' '] + self.path.spec_describe());
        }
        wrap("MethodPath", inner)
    }
}

/// A request without a query shows the query extractor the empty text, so a
/// matcher for the empty text accepts it.
pub proof fn lemma_absent_query_is_empty(req: RequestView)
    requires
        req.query is None,
    ensures
        query_text(req) == Seq::<char>::empty(),
        Query("").spec_map(req),
{
    reveal_strlit("");
    assert(""@ =~= Seq::<char>::empty());
}

/// The header extractor hands on the headers as received, every occurrence
/// in its place: a matcher for the whole sequence sees them in that order,
/// and a containment matcher finds a header at any position, a repeated key
/// included.
pub proof fn lemma_headers_as_received(req: RequestView, expected: Vec<KV>, kv: KV, i: int)
    requires
        0 <= i < req.headers.len(),
        req.headers[i]@ == kv@,
    ensures
        Headers(Equals(expected)).spec_map(req) <==> kvs_view(req.headers) == kvs_view(expected@),
        Headers(Contains(kv)).spec_map(req),
{
}

/// `method_path(m, p)` accepts a request exactly when its method is `m` and
/// its path is `p`.
pub proof fn lemma_method_path<'a>(req: RequestView, m: &'a str, p: &'a str)
    ensures
        (MethodPath { method: m, path: p }).spec_map(req) <==> (req.method == m@ && req.path == p@),
{
}

} // verus!
