use httptest::mappers::request::{method_path, MethodPath};
use httptest::request::Request;
use httptest::server::{
    cardinality_not_exceeded, hit_count_is_valid, Dispatch, Expectation, ServerState, Times,
    VerifyError,
};

type State = ServerState<MethodPath<&'static str, &'static str>, &'static str>;

fn req(m: &str, uri: &str) -> Request {
    Request::new(m, uri, vec![], vec![]).unwrap()
}

#[test]
fn exactly_once_then_exceeded() {
    let mut state: State = ServerState::new();
    state.push_expectation(Expectation::matching(method_path("GET", "/foo")).respond_with("ok"));
    let r = req("GET", "http://localhost/foo");
    assert_eq!(state.on_req(&r), Dispatch::Respond(0));
    assert_eq!(*state.expected[0].responder, *"ok");
    assert_eq!(state.expected[0].hit_count, 1);
    assert_eq!(state.on_req(&r), Dispatch::CardinalityExceeded(0));
    assert_eq!(state.expected[0].hit_count, 2);
    assert_eq!(
        state.verify_and_clear(false),
        Err(VerifyError::UnexpectedHitCount(0))
    );
    assert_eq!(state.expected.len(), 1);
}

#[test]
fn at_least_two() {
    let mut state: State = ServerState::new();
    state.push_expectation(
        Expectation::matching(method_path("GET", "/foo"))
            .times(Times::AtLeast(2))
            .respond_with("ok"),
    );
    let r = req("GET", "http://localhost/foo");
    assert_eq!(state.on_req(&r), Dispatch::Respond(0));
    assert_eq!(
        state.verify_and_clear(false),
        Err(VerifyError::UnexpectedHitCount(0))
    );
    assert_eq!(state.on_req(&r), Dispatch::Respond(0));
    assert_eq!(state.verify_and_clear(false), Ok(()));
    assert_eq!(state.expected.len(), 0);
    assert_eq!(state.unexpected_requests, 0);
}

#[test]
fn newest_matching_expectation_answers() {
    let mut state: State = ServerState::new();
    state.push_expectation(
        Expectation::matching(method_path("GET", "/a"))
            .times(Times::Any)
            .respond_with("old"),
    );
    state.push_expectation(
        Expectation::matching(method_path("GET", "/a"))
            .times(Times::Any)
            .respond_with("new"),
    );
    state.push_expectation(
        Expectation::matching(method_path("GET", "/b"))
            .times(Times::Any)
            .respond_with("other"),
    );
    assert_eq!(state.on_req(&req("GET", "http://localhost/a")), Dispatch::Respond(1));
    assert_eq!(state.expected[0].hit_count, 0);
    assert_eq!(state.expected[1].hit_count, 1);
    assert_eq!(state.expected[2].hit_count, 0);
}

#[test]
fn blown_expectation_is_not_skipped() {
    let mut state: State = ServerState::new();
    state.push_expectation(
        Expectation::matching(method_path("GET", "/a"))
            .times(Times::Any)
            .respond_with("loose"),
    );
    state.push_expectation(Expectation::matching(method_path("GET", "/a")).respond_with("strict"));
    let r = req("GET", "http://localhost/a");
    assert_eq!(state.on_req(&r), Dispatch::Respond(1));
    assert_eq!(state.on_req(&r), Dispatch::CardinalityExceeded(1));
    assert_eq!(state.expected[0].hit_count, 0);
}

#[test]
fn unmatched_requests_are_counted() {
    let mut state: State = ServerState::new();
    assert_eq!(state.on_req(&req("GET", "http://localhost/")), Dispatch::NoMatch);
    assert_eq!(state.unexpected_requests, 1);
    assert_eq!(state.verify(), Err(VerifyError::UnexpectedRequests(1)));
    assert_eq!(
        state.verify_and_clear(false),
        Err(VerifyError::UnexpectedRequests(1))
    );
    assert_eq!(state.unexpected_requests, 1);
}

#[test]
fn panicking_clears_without_verdict() {
    let mut state: State = ServerState::new();
    state.push_expectation(Expectation::matching(method_path("GET", "/a")).respond_with("x"));
    state.on_req(&req("GET", "http://localhost/other"));
    assert_eq!(state.verify_and_clear(true), Ok(()));
    assert_eq!(state.expected.len(), 0);
    assert_eq!(state.unexpected_requests, 0);
}

#[test]
fn first_failing_expectation_is_reported() {
    let mut state: State = ServerState::new();
    state.push_expectation(
        Expectation::matching(method_path("GET", "/a"))
            .times(Times::Any)
            .respond_with("x"),
    );
    state.push_expectation(Expectation::matching(method_path("GET", "/b")).respond_with("y"));
    state.push_expectation(Expectation::matching(method_path("GET", "/c")).respond_with("z"));
    state.on_req(&req("GET", "http://localhost/b"));
    assert_eq!(state.verify(), Err(VerifyError::UnexpectedHitCount(2)));
}

#[test]
fn exactly_n() {
    let mut state: State = ServerState::new();
    state.push_expectation(
        Expectation::matching(method_path("GET", "/a"))
            .times(Times::Exactly(3))
            .respond_with("x"),
    );
    let r = req("GET", "http://localhost/a");
    for _ in 0..3 {
        assert_eq!(state.on_req(&r), Dispatch::Respond(0));
    }
    assert_eq!(state.verify(), Ok(()));
    assert_eq!(state.on_req(&r), Dispatch::CardinalityExceeded(0));
    assert_eq!(state.verify(), Err(VerifyError::UnexpectedHitCount(0)));
}

#[test]
fn cardinality_tables() {
    assert!(cardinality_not_exceeded(&Times::Any, usize::MAX));
    assert!(cardinality_not_exceeded(&Times::AtLeast(2), 100));
    assert!(cardinality_not_exceeded(&Times::AtMost(2), 2));
    assert!(!cardinality_not_exceeded(&Times::AtMost(2), 3));
    assert!(cardinality_not_exceeded(&Times::Between(1, 3), 3));
    assert!(!cardinality_not_exceeded(&Times::Between(1, 3), 4));
    assert!(cardinality_not_exceeded(&Times::Exactly(1), 1));
    assert!(!cardinality_not_exceeded(&Times::Exactly(1), 2));

    assert!(hit_count_is_valid(&Times::Any, 0));
    assert!(!hit_count_is_valid(&Times::AtLeast(2), 1));
    assert!(hit_count_is_valid(&Times::AtLeast(2), 2));
    assert!(hit_count_is_valid(&Times::AtMost(2), 0));
    assert!(!hit_count_is_valid(&Times::AtMost(2), 3));
    assert!(!hit_count_is_valid(&Times::Between(1, 3), 0));
    assert!(hit_count_is_valid(&Times::Between(1, 3), 1));
    assert!(hit_count_is_valid(&Times::Between(1, 3), 3));
    assert!(!hit_count_is_valid(&Times::Between(1, 3), 4));
    assert!(hit_count_is_valid(&Times::Exactly(0), 0));
    assert!(!hit_count_is_valid(&Times::Exactly(1), 0));
}

#[test]
fn between_refuses_hit_after_upper_bound() {
    let mut state: State = ServerState::new();
    state.push_expectation(
        Expectation::matching(method_path("GET", "/a"))
            .times(Times::Between(1, 2))
            .respond_with("x"),
    );
    let r = req("GET", "http://localhost/a");
    assert_eq!(state.verify(), Err(VerifyError::UnexpectedHitCount(0)));
    assert_eq!(state.on_req(&r), Dispatch::Respond(0));
    assert_eq!(state.verify(), Ok(()));
    assert_eq!(state.on_req(&r), Dispatch::Respond(0));
    assert_eq!(state.on_req(&r), Dispatch::CardinalityExceeded(0));
    assert_eq!(state.verify(), Err(VerifyError::UnexpectedHitCount(0)));
}
