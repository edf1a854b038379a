//! The expectation registry: registering expectations, selecting the one that
//! answers a request, counting hits, and the verdict at the end of a test.

use crate::mappers::Mapper;
use crate::request::{Request, RequestView};
use vstd::prelude::*;

verus! {

/// How many requests should an expectation receive.
#[derive(Clone, Copy, PartialEq, Eq, Debug)]
pub enum Times {
    /// Allow any number of requests.
    Any,
    /// Require that at least this many requests are received.
    AtLeast(usize),
    /// Require that no more than this many requests are received.
    AtMost(usize),
    /// Require that the number of requests received is within `lo..=hi`.
    Between(usize, usize),
    /// Require that exactly this many requests are received.
    Exactly(usize),
}

/// A hit count that the cardinality still allows while requests come in.
pub open spec fn spec_not_exceeded(cardinality: Times, hit_count: nat) -> bool {
    match cardinality {
        Times::Any => true,
        Times::AtLeast(_) => true,
        Times::AtMost(limit) => hit_count <= limit,
        Times::Between(_, hi) => hit_count <= hi,
        Times::Exactly(limit) => hit_count <= limit,
    }
}

/// A final hit count that meets the cardinality.
pub open spec fn spec_hit_count_valid(cardinality: Times, hit_count: nat) -> bool {
    match cardinality {
        Times::Any => true,
        Times::AtLeast(lower_bound) => hit_count >= lower_bound,
        Times::AtMost(limit) => hit_count <= limit,
        Times::Between(lo, hi) => lo <= hit_count <= hi,
        Times::Exactly(limit) => hit_count == limit,
    }
}

/// Whether `hit_count` hits, the latest one included, stay within what the
/// cardinality allows.
pub fn cardinality_not_exceeded(cardinality: &Times, hit_count: usize) -> (r: bool)
    ensures
        r == spec_not_exceeded(*cardinality, hit_count as nat),
{
    match cardinality {
        Times::Any => true,
        Times::AtLeast(_) => true,
        Times::AtMost(limit) => hit_count <= *limit,
        Times::Between(_, hi) => hit_count <= *hi,
        Times::Exactly(limit) => hit_count <= *limit,
    }
}

/// Whether a final count of `hit_count` hits meets the cardinality.
pub fn hit_count_is_valid(cardinality: &Times, hit_count: usize) -> (r: bool)
    ensures
        r == spec_hit_count_valid(*cardinality, hit_count as nat),
{
    match cardinality {
        Times::Any => true,
        Times::AtLeast(lower_bound) => hit_count >= *lower_bound,
        Times::AtMost(limit) => hit_count <= *limit,
        Times::Between(lo, hi) => *lo <= hit_count && hit_count <= *hi,
        Times::Exactly(limit) => hit_count == *limit,
    }
}

/// An expectation to be asserted by the server: a matcher over requests, a
/// responder, a cardinality and the number of requests it has answered.
pub struct Expectation<M, R> {
    pub matcher: M,
    pub cardinality: Times,
    pub responder: R,
    pub hit_count: usize,
}

impl<M> Expectation<M, ()> {
    /// What requests will this expectation match. Unless `times` says
    /// otherwise, it expects exactly one. The responder, and with it the
    /// expectation's responder type, comes with `respond_with`.
    pub fn matching(matcher: M) -> (r: ExpectationBuilder<M>)
        ensures
            r.matcher == matcher,
            r.cardinality == Times::Exactly(1),
    {
        ExpectationBuilder { matcher, cardinality: Times::Exactly(1) }
    }
}

/// Define expectations using a builder pattern.
pub struct ExpectationBuilder<M> {
    pub matcher: M,
    pub cardinality: Times,
}

impl<M> ExpectationBuilder<M> {
    /// How many requests should this expectation receive.
    pub fn times(self, cardinality: Times) -> (r: ExpectationBuilder<M>)
        ensures
            r.matcher == self.matcher,
            r.cardinality == cardinality,
    {
        ExpectationBuilder { matcher: self.matcher, cardinality }
    }

    /// What should this expectation respond with. The expectation starts
    /// with no hits.
    pub fn respond_with<R>(self, responder: R) -> (r: Expectation<M, R>)
        ensures
            r.matcher == self.matcher,
            r.cardinality == self.cardinality,
            r.responder == responder,
            r.hit_count == 0,
    {
        Expectation { matcher: self.matcher, cardinality: self.cardinality, responder, hit_count: 0 }
    }
}

/// What the server does with a request.
#[derive(Clone, Copy, PartialEq, Eq, Debug)]
pub enum Dispatch {
    /// Answer with the responder of the expectation at this position.
    Respond(usize),
    /// The expectation at this position matched, but the hit went beyond its
    /// cardinality: answer with a server error that describes it.
    CardinalityExceeded(usize),
    /// No expectation matched: answer with a server error.
    NoMatch,
}

/// Why the verdict at the end of a test is a failure.
#[derive(Clone, Copy, PartialEq, Eq, Debug)]
pub enum VerifyError {
    /// The expectation at this position received a number of requests that
    /// its cardinality does not allow.
    UnexpectedHitCount(usize),
    /// This many requests matched no expectation.
    UnexpectedRequests(usize),
}

/// The state the server shares between its handle and its request handler.
pub struct ServerState<M, R> {
    /// The expectations, oldest first.
    pub expected: Vec<Expectation<M, R>>,
    /// How many requests matched no expectation.
    pub unexpected_requests: usize,
}

/// The expectation at position `i` matches the request.
pub open spec fn matches_at<M: Mapper<Request, Out = bool>, R>(
    exps: Seq<Expectation<M, R>>,
    req: RequestView,
    i: int,
) -> bool {
    0 <= i < exps.len() && exps[i].matcher.spec_map(req)
}

/// The expectation at position `i` is the one that answers the request: it
/// matches, and no expectation registered after it does.
pub open spec fn selected<M: Mapper<Request, Out = bool>, R>(
    exps: Seq<Expectation<M, R>>,
    req: RequestView,
    i: int,
) -> bool {
    &&& matches_at(exps, req, i)
    &&& forall|j: int| i < j < exps.len() ==> !#[trigger] matches_at(exps, req, j)
}

/// No expectation matches the request.
pub open spec fn none_match<M: Mapper<Request, Out = bool>, R>(
    exps: Seq<Expectation<M, R>>,
    req: RequestView,
) -> bool {
    forall|j: int| 0 <= j < exps.len() ==> !#[trigger] matches_at(exps, req, j)
}

/// The expectation with one more hit.
pub open spec fn with_hit<M, R>(e: Expectation<M, R>) -> Expectation<M, R> {
    Expectation { hit_count: (e.hit_count + 1) as usize, ..e }
}

/// Every expectation's hit count meets its cardinality.
pub open spec fn all_valid<M, R>(exps: Seq<Expectation<M, R>>) -> bool {
    forall|i: int| 0 <= i < exps.len() ==> spec_hit_count_valid(
        #[trigger] exps[i].cardinality,
        exps[i].hit_count as nat,
    )
}

/// The verdict on a state: the first expectation whose count is not met,
/// else the count of unmatched requests, where it is not zero.
pub open spec fn spec_verdict<M, R>(exps: Seq<Expectation<M, R>>, unexpected: nat) -> Result<
    (),
    VerifyError,
> {
    if exists|i: int|
        0 <= i < exps.len() && !spec_hit_count_valid(
            #[trigger] exps[i].cardinality,
            exps[i].hit_count as nat,
        ) {
        let i = choose|i: int|
            0 <= i < exps.len() && !spec_hit_count_valid(
                #[trigger] exps[i].cardinality,
                exps[i].hit_count as nat,
            ) && forall|j: int|
                0 <= j < i ==> spec_hit_count_valid(
                    #[trigger] exps[j].cardinality,
                    exps[j].hit_count as nat,
                );
        Err(VerifyError::UnexpectedHitCount(i as usize))
    } else if unexpected != 0 {
        Err(VerifyError::UnexpectedRequests(unexpected as usize))
    } else {
        Ok(())
    }
}

/// Of two expectations that both match a request, the older never answers
/// it: the one that answers was registered no earlier than the newer one.
pub proof fn lemma_newest_match_wins<M: Mapper<Request, Out = bool>, R>(
    exps: Seq<Expectation<M, R>>,
    req: RequestView,
    older: int,
    newer: int,
)
    requires
        0 <= older < newer < exps.len(),
        matches_at(exps, req, older),
        matches_at(exps, req, newer),
    ensures
        !selected(exps, req, older),
        forall|k: int| #[trigger] selected(exps, req, k) ==> newer <= k,
{
}

/// With `Exactly(n)`, each of the first `n` hits is answered, the hit after
/// them is not, and the verdict on a lone expectation with no unmatched
/// requests is `Ok` after exactly `n` hits and a failure after more.
pub proof fn lemma_exactly<M, R>(n: usize, e: Expectation<M, R>)
    requires
        e.cardinality == Times::Exactly(n),
    ensures
        forall|h: nat| 1 <= h <= n ==> #[trigger] spec_not_exceeded(e.cardinality, h),
        !spec_not_exceeded(e.cardinality, n as nat + 1),
        forall|h: nat| #[trigger] spec_hit_count_valid(e.cardinality, h) <==> h == n,
        spec_verdict(seq![e], 0) is Ok <==> e.hit_count == n,
        e.hit_count > n ==> spec_verdict(seq![e], 0) == Err::<(), VerifyError>(
            VerifyError::UnexpectedHitCount(0),
        ),
{
    lemma_lone_verdict(e);
}

/// With `Between(lo, hi)`, a final count is accepted exactly when it lies in
/// `lo..=hi`, every hit up to `hi` is answered, and hit `hi + 1` is refused
/// when it comes.
pub proof fn lemma_between<M, R>(lo: usize, hi: usize, e: Expectation<M, R>)
    requires
        e.cardinality == Times::Between(lo, hi),
    ensures
        forall|h: nat| #[trigger] spec_hit_count_valid(e.cardinality, h) <==> lo <= h <= hi,
        forall|h: nat| h <= hi ==> #[trigger] spec_not_exceeded(e.cardinality, h),
        !spec_not_exceeded(e.cardinality, hi as nat + 1),
        spec_verdict(seq![e], 0) is Ok <==> lo <= e.hit_count <= hi,
{
    lemma_lone_verdict(e);
}

/// The verdict on a lone expectation with no unmatched requests.
proof fn lemma_lone_verdict<M, R>(e: Expectation<M, R>)
    ensures
        spec_hit_count_valid(e.cardinality, e.hit_count as nat) ==> spec_verdict(seq![e], 0) is Ok,
        !spec_hit_count_valid(e.cardinality, e.hit_count as nat) ==> spec_verdict(seq![e], 0)
            == Err::<(), VerifyError>(VerifyError::UnexpectedHitCount(0)),
{
    let exps = seq![e];
    if !spec_hit_count_valid(e.cardinality, e.hit_count as nat) {
        assert(exps[0] == e);
        let c = choose|i: int|
            0 <= i < exps.len() && !spec_hit_count_valid(
                #[trigger] exps[i].cardinality,
                exps[i].hit_count as nat,
            ) && forall|j: int|
                0 <= j < i ==> spec_hit_count_valid(
                    #[trigger] exps[j].cardinality,
                    exps[j].hit_count as nat,
                );
        assert(0 <= c < exps.len() && !spec_hit_count_valid(exps[c].cardinality, exps[c].hit_count as nat) && forall|j: int|
                0 <= j < c ==> spec_hit_count_valid(
                    #[trigger] exps[j].cardinality,
                    exps[j].hit_count as nat,
                ));
    }
}

/// With no expectation registered, no request is matched, and once a
/// request has been counted as unmatched the verdict is a failure that
/// gives that count.
pub proof fn lemma_no_expectations<M: Mapper<Request, Out = bool>, R>(
    exps: Seq<Expectation<M, R>>,
    req: RequestView,
)
    requires
        exps.len() == 0,
    ensures
        none_match(exps, req),
        forall|i: int| !#[trigger] selected(exps, req, i),
        forall|u: nat|
            0 < u <= usize::MAX ==> #[trigger] spec_verdict(exps, u) == Err::<(), VerifyError>(
                VerifyError::UnexpectedRequests(u as usize),
            ),
{
}

impl<M: Mapper<Request, Out = bool>, R> ServerState<M, R> {
    /// A state with no expectations and no unmatched requests.
    pub fn new() -> (r: ServerState<M, R>)
        ensures
            r.expected@.len() == 0,
            r.unexpected_requests == 0,
    {
        ServerState { expected: Vec::new(), unexpected_requests: 0 }
    }

    /// Add a new expectation, after all the others.
    pub fn push_expectation(&mut self, expectation: Expectation<M, R>)
        ensures
            final(self).expected@ == old(self).expected@.push(expectation),
            final(self).unexpected_requests == old(self).unexpected_requests,
    {
        self.expected.push(expectation);
    }

    /// Decide how to answer a request. The expectations are tried newest
    /// first; the first that matches takes the hit, and answers unless the
    /// hit goes beyond its cardinality. A request that no expectation matches
    /// is counted as unmatched.
    pub fn on_req(&mut self, req: &Request) -> (r: Dispatch)
        requires
            old(self).unexpected_requests < usize::MAX,
            forall|i: int|
                0 <= i < old(self).expected@.len() ==> (#[trigger] old(self).expected@[i]).hit_count
                    < usize::MAX,
        ensures
            (match r {
                Dispatch::Respond(i) | Dispatch::CardinalityExceeded(i) => {
                    &&& selected(old(self).expected@, req@, i as int)
                    &&& final(self).expected@ == old(self).expected@.update(
                        i as int,
                        with_hit(old(self).expected@[i as int]),
                    )
                    &&& final(self).unexpected_requests == old(self).unexpected_requests
                    &&& (r is Respond) == spec_not_exceeded(
                        old(self).expected@[i as int].cardinality,
                        old(self).expected@[i as int].hit_count as nat + 1,
                    )
                },
                Dispatch::NoMatch => {
                    &&& none_match(old(self).expected@, req@)
                    &&& final(self).expected@ == old(self).expected@
                    &&& final(self).unexpected_requests == old(self).unexpected_requests + 1
                },
            }),
    {
        let mut i: usize = self.expected.len();
        while i > 0
            invariant
                i <= self.expected@.len(),
                self.expected@ == old(self).expected@,
                self.unexpected_requests == old(self).unexpected_requests,
                old(self).unexpected_requests < usize::MAX,
                forall|j: int|
                    0 <= j < old(self).expected@.len() ==> (#[trigger] old(self).expected@[j]).hit_count
                        < usize::MAX,
                forall|j: int| i <= j < self.expected@.len() ==> !#[trigger] matches_at(self.expected@, req@, j),
            decreases i,
        {
            i -= 1;
            if self.expected[i].matcher.map(req) {
                let hit_count = self.expected[i].hit_count + 1;
                self.expected[i].hit_count = hit_count;
                proof {
                    assert(self.expected@ =~= old(self).expected@.update(
                        i as int,
                        with_hit(old(self).expected@[i as int]),
                    ));
                }
                if cardinality_not_exceeded(&self.expected[i].cardinality, hit_count) {
                    return Dispatch::Respond(i);
                } else {
                    return Dispatch::CardinalityExceeded(i);
                }
            }
        }
        self.unexpected_requests = self.unexpected_requests + 1;
        Dispatch::NoMatch
    }

    /// The verdict at the end of a test: `Ok` where every expectation's hit
    /// count meets its cardinality and no request went unmatched; else the
    /// first expectation, oldest first, whose count is not met, or else the
    /// number of unmatched requests.
    pub fn verify(&self) -> (r: Result<(), VerifyError>)
        ensures
            r == spec_verdict(self.expected@, self.unexpected_requests as nat),
            r is Ok <==> all_valid(self.expected@) && self.unexpected_requests == 0,
    {
        let mut i: usize = 0;
        while i < self.expected.len()
            invariant
                i <= self.expected@.len(),
                forall|j: int|
                    0 <= j < i ==> spec_hit_count_valid(
                        #[trigger] self.expected@[j].cardinality,
                        self.expected@[j].hit_count as nat,
                    ),
            decreases self.expected@.len() - i,
        {
            if !hit_count_is_valid(&self.expected[i].cardinality, self.expected[i].hit_count) {
                proof {
                    let exps = self.expected@;
                    let first = |k: int|
                        0 <= k < exps.len() && !spec_hit_count_valid(
                            exps[k].cardinality,
                            exps[k].hit_count as nat,
                        ) && forall|j: int|
                            0 <= j < k ==> spec_hit_count_valid(
                                #[trigger] exps[j].cardinality,
                                exps[j].hit_count as nat,
                            );
                    assert(first(i as int));
                    let c = choose|k: int|
                        0 <= k < exps.len() && !spec_hit_count_valid(
                            #[trigger] exps[k].cardinality,
                            exps[k].hit_count as nat,
                        ) && forall|j: int|
                            0 <= j < k ==> spec_hit_count_valid(
                                #[trigger] exps[j].cardinality,
                                exps[j].hit_count as nat,
                            );
                    assert(first(c));
                    if c < i {
                        assert(spec_hit_count_valid(exps[c].cardinality, exps[c].hit_count as nat));
                    }
                    if c > i {
                        assert(spec_hit_count_valid(exps[i as int].cardinality, exps[i as int].hit_count as nat));
                    }
                    assert(c == i);
                }
                return Err(VerifyError::UnexpectedHitCount(i));
            }
            i += 1;
        }
        if self.unexpected_requests != 0 {
            return Err(VerifyError::UnexpectedRequests(self.unexpected_requests));
        }
        Ok(())
    }

    /// Empty the state: no expectations, no unmatched requests.
    pub fn clear(&mut self)
        ensures
            final(self).expected@.len() == 0,
            final(self).unexpected_requests == 0,
    {
        self.expected = Vec::new();
        self.unexpected_requests = 0;
    }

    /// Give the verdict and, where it is `Ok`, clear the state so the server
    /// can be used again; on a failure the state is kept for the report. Where
    /// the test is already failing (`panicking`), the state is cleared and no
    /// verdict is given, so that the first failure is the one reported.
    pub fn verify_and_clear(&mut self, panicking: bool) -> (r: Result<(), VerifyError>)
        ensures
            panicking ==> r is Ok,
            !panicking ==> r == spec_verdict(
                old(self).expected@,
                old(self).unexpected_requests as nat,
            ),
            r is Ok ==> final(self).expected@.len() == 0 && final(self).unexpected_requests == 0,
            r is Err ==> final(self).expected@ == old(self).expected@
                && final(self).unexpected_requests == old(self).unexpected_requests,
    {
        if panicking {
            self.clear();
            return Ok(());
        }
        let r = self.verify();
        if r.is_ok() {
            self.clear();
        }
        r
    }
}

} // verus!
