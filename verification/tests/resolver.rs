use rssss::http::FetchOutcome;
use rssss::http::ServiceResponse;
use rssss::http::outcome_to_response;
use rssss::resolver::FetchEvent;
use rssss::resolver::ResolverAction;
use rssss::resolver::ResolverState;
use rssss::resolver::initial_state;
use rssss::resolver::resolver_step;

fn respond(status: u16, body: Option<&str>) -> ResolverAction {
    ResolverAction::Respond {
        response: ServiceResponse { status, body: body.map(String::from) },
    }
}

#[test]
fn success_resolves_to_feed_json() {
    let (s1, a1) = resolver_step(
        initial_state(),
        FetchEvent::Head { status: 200, location: None },
    );
    assert_eq!(s1, ResolverState::ReadingBody);
    assert_eq!(a1, ResolverAction::ReadBody { limit: 1_048_576 });

    let body = b"<rss></rss>".to_vec();
    let (s2, a2) = resolver_step(s1, FetchEvent::BodyOk { body: body.clone() });
    assert_eq!(s2, ResolverState::Decoding);
    assert_eq!(a2, ResolverAction::Decode { body });

    let (s3, a3) = resolver_step(
        s2,
        FetchEvent::DecodeOk { feed_json: String::from("{\"title\":\"t\"}") },
    );
    assert_eq!(s3, ResolverState::Done);
    assert_eq!(a3, respond(200, Some("{\"title\":\"t\"}")));
}

#[test]
fn single_redirect_is_followed_and_target_resolves() {
    let (s1, a1) = resolver_step(
        initial_state(),
        FetchEvent::Head {
            status: 301,
            location: Some(String::from("http://example.org/feed.xml")),
        },
    );
    assert_eq!(s1, ResolverState::Fetching { hops_left: 0 });
    assert_eq!(
        a1,
        ResolverAction::Request {
            url: String::from("http://example.org/feed.xml"),
            timeout_secs: 60,
        }
    );

    // The target answers 200: from here on the run is the same as a direct
    // resolution of the target.
    let (s2, a2) = resolver_step(s1, FetchEvent::Head { status: 200, location: None });
    assert_eq!(s2, ResolverState::ReadingBody);
    assert_eq!(a2, ResolverAction::ReadBody { limit: 1_048_576 });

    let (s3, _) = resolver_step(s2, FetchEvent::BodyOk { body: b"x".to_vec() });
    let (s4, a4) = resolver_step(s3, FetchEvent::DecodeOk { feed_json: String::from("{}") });
    assert_eq!(s4, ResolverState::Done);
    assert_eq!(a4, respond(200, Some("{}")));
}

#[test]
fn second_redirect_is_passed_through_not_followed() {
    // A redirects to B, B redirects to C, C would answer 200: the resolver
    // stops at B and passes B's status through with an empty body.
    let (s1, _) = resolver_step(
        initial_state(),
        FetchEvent::Head { status: 301, location: Some(String::from("http://b/")) },
    );
    let (s2, a2) = resolver_step(
        s1,
        FetchEvent::Head { status: 302, location: Some(String::from("http://c/")) },
    );
    assert_eq!(s2, ResolverState::Done);
    assert_eq!(a2, respond(302, None));
}

#[test]
fn redirect_without_location_yields_500() {
    let (s1, a1) = resolver_step(
        initial_state(),
        FetchEvent::Head { status: 301, location: None },
    );
    assert_eq!(s1, ResolverState::Done);
    assert_eq!(a1, respond(500, None));
}

#[test]
fn terminal_status_is_passed_through_with_empty_body() {
    let (s1, a1) = resolver_step(
        initial_state(),
        FetchEvent::Head { status: 404, location: None },
    );
    assert_eq!(s1, ResolverState::Done);
    assert_eq!(a1, respond(404, None));
}

#[test]
fn connection_failure_yields_500() {
    let (s1, a1) = resolver_step(initial_state(), FetchEvent::ConnectionFailed);
    assert_eq!(s1, ResolverState::Done);
    assert_eq!(a1, respond(500, None));
}

#[test]
fn body_overflow_yields_500() {
    let (s1, _) = resolver_step(initial_state(), FetchEvent::Head { status: 200, location: None });
    let (s2, a2) = resolver_step(s1, FetchEvent::BodyOverflow);
    assert_eq!(s2, ResolverState::Done);
    assert_eq!(a2, respond(500, None));
}

#[test]
fn transport_failure_during_body_read_yields_500() {
    let (s1, _) = resolver_step(initial_state(), FetchEvent::Head { status: 200, location: None });
    let (s2, a2) = resolver_step(s1, FetchEvent::BodyFailed);
    assert_eq!(s2, ResolverState::Done);
    assert_eq!(a2, respond(500, None));
}

#[test]
fn decode_failure_yields_500() {
    let (s1, _) = resolver_step(initial_state(), FetchEvent::Head { status: 200, location: None });
    let (s2, _) = resolver_step(s1, FetchEvent::BodyOk { body: b"not a feed".to_vec() });
    let (s3, a3) = resolver_step(s2, FetchEvent::DecodeFailed);
    assert_eq!(s3, ResolverState::Done);
    assert_eq!(a3, respond(500, None));
}

#[test]
fn redirect_statuses_spend_the_budget_only_when_followable() {
    // 1xx is neither success nor redirect: passed through.
    let (s1, a1) = resolver_step(
        initial_state(),
        FetchEvent::Head { status: 101, location: None },
    );
    assert_eq!(s1, ResolverState::Done);
    assert_eq!(a1, respond(101, None));

    // Boundary statuses of the redirect class.
    let (s2, _) = resolver_step(
        initial_state(),
        FetchEvent::Head { status: 300, location: Some(String::from("http://t/")) },
    );
    assert_eq!(s2, ResolverState::Fetching { hops_left: 0 });
    let (s3, _) = resolver_step(
        initial_state(),
        FetchEvent::Head { status: 399, location: Some(String::from("http://t/")) },
    );
    assert_eq!(s3, ResolverState::Fetching { hops_left: 0 });

    // 400 is past the class: passed through.
    let (s4, a4) = resolver_step(
        initial_state(),
        FetchEvent::Head { status: 400, location: Some(String::from("http://t/")) },
    );
    assert_eq!(s4, ResolverState::Done);
    assert_eq!(a4, respond(400, None));
}

#[test]
fn outcome_mapping_is_uniform() {
    assert_eq!(
        outcome_to_response(FetchOutcome::Success { feed_json: String::from("{}") }),
        ServiceResponse { status: 200, body: Some(String::from("{}")) }
    );
    assert_eq!(
        outcome_to_response(FetchOutcome::UpstreamStatus { code: 418 }),
        ServiceResponse { status: 418, body: None }
    );
    assert_eq!(
        outcome_to_response(FetchOutcome::RedirectResolutionFailure),
        ServiceResponse { status: 500, body: None }
    );
    assert_eq!(
        outcome_to_response(FetchOutcome::TransportFailure),
        ServiceResponse { status: 500, body: None }
    );
    assert_eq!(
        outcome_to_response(FetchOutcome::DecodeFailure),
        ServiceResponse { status: 500, body: None }
    );
}
