//! The fetch resolver: a state machine over network responses.
//!
//! One resolution issues an HTTP GET, classifies the response head by status
//! class, follows at most [`crate::http::MAX_REDIRECT_HOPS`] redirect hops,
//! reads a 2xx body under the size cap, hands the bytes to the feed decoder,
//! and ends in exactly one service response.
//!
//! The machine itself performs no I/O. The caller performs each emitted
//! [`ResolverAction`] and reports what happened as the next [`FetchEvent`];
//! [`resolver_step`] is a pure transition function, so every decision the
//! service makes about a network outcome is verified here.

use vstd::prelude::*;

use crate::http::BODY_CAP_BYTES;
use crate::http::FetchOutcome;
use crate::http::HTTP_INTERNAL_SERVER_ERROR;
use crate::http::HTTP_OK;
use crate::http::MAX_REDIRECT_HOPS;
use crate::http::REQUEST_TIMEOUT_SECS;
use crate::http::ServiceResponse;
use crate::http::empty_response;
use crate::http::is_redirection_status;
use crate::http::is_success_status;
use crate::http::outcome_to_response;
use crate::http::spec_is_redirection;
use crate::http::spec_is_success;
use crate::http::spec_outcome_response;

verus! {

/// Where one resolution stands.
#[derive(Debug, PartialEq, Eq)]
pub enum ResolverState {
    /// A request is in flight; the response head has not arrived yet.
    /// `hops_left` redirect hops may still be followed.
    Fetching { hops_left: u32 },
    /// The head was 2xx; the body is being read under the size cap.
    ReadingBody,
    /// The body was read in full; the feed decoder is working on it.
    Decoding,
    /// The resolution has ended; a response was emitted.
    Done,
}

/// What the outside world reports back to the machine.
#[derive(Debug, PartialEq, Eq)]
pub enum FetchEvent {
    /// The response head arrived: its status, and the `Location` header if
    /// present and representable as a string.
    Head { status: u16, location: Option<String> },
    /// The request failed at the transport level (connect, name resolution,
    /// or timeout) before a head arrived.
    ConnectionFailed,
    /// The whole body arrived without crossing the size cap.
    BodyOk { body: Vec<u8> },
    /// The body crossed the size cap and the read was aborted.
    BodyOverflow,
    /// The transport failed while the body was being read.
    BodyFailed,
    /// The decoder produced a feed, serialized as JSON.
    DecodeOk { feed_json: String },
    /// The decoder rejected the bytes.
    DecodeFailed,
}

/// What the outside world must do next.
#[derive(Debug, PartialEq, Eq)]
pub enum ResolverAction {
    /// Issue an HTTP GET to `url` with the identifying `User-Agent` header
    /// and the given per-attempt timeout, and await the response head.
    Request { url: String, timeout_secs: u64 },
    /// Read the body of the current response, aborting once more than
    /// `limit` bytes have arrived.
    ReadBody { limit: usize },
    /// Run the feed decoder on the body.
    Decode { body: Vec<u8> },
    /// Send this response to the inbound caller; the resolution is over.
    Respond { response: ServiceResponse },
}

/// The state a resolution starts in: the first request is in flight and the
/// full redirect budget is unspent.
pub open spec fn spec_initial_state() -> ResolverState {
    ResolverState::Fetching { hops_left: MAX_REDIRECT_HOPS }
}

/// A terminal step: the outcome's response is emitted and the machine stops.
pub open spec fn spec_finish(o: FetchOutcome) -> (ResolverState, ResolverAction) {
    (
        ResolverState::Done,
        ResolverAction::Respond { response: spec_outcome_response(o) },
    )
}

/// The transition function of the resolver, in full:
///
/// - a 2xx head starts the capped body read, whatever the redirect budget;
/// - a 3xx head with budget left and a usable `Location` spends one hop and
///   re-issues the request to the target;
/// - a 3xx head with budget left but no usable `Location` ends in a bare 500;
/// - any other head — including a 3xx once the budget is spent — ends in a
///   pass-through of the upstream status with an empty body;
/// - a transport failure, before the head or during the body read, ends in a
///   bare 500;
/// - a body that crosses the cap, or a decoder rejection, ends in a bare 500;
/// - a body within the cap goes to the decoder, and a decoded feed ends in a
///   200 carrying the feed JSON.
///
/// An event that does not belong to the current state (which a caller
/// performing the emitted actions never produces) ends in a bare 500.
pub open spec fn spec_step(state: ResolverState, event: FetchEvent) -> (ResolverState, ResolverAction) {
    match (state, event) {
        (ResolverState::Fetching { hops_left }, FetchEvent::Head { status, location }) => {
            if spec_is_success(status) {
                (ResolverState::ReadingBody, ResolverAction::ReadBody { limit: BODY_CAP_BYTES })
            } else if spec_is_redirection(status) && hops_left > 0 {
                match location {
                    Some(url) => (
                        ResolverState::Fetching { hops_left: (hops_left - 1) as u32 },
                        ResolverAction::Request { url, timeout_secs: REQUEST_TIMEOUT_SECS },
                    ),
                    None => spec_finish(FetchOutcome::RedirectResolutionFailure),
                }
            } else {
                spec_finish(FetchOutcome::UpstreamStatus { code: status })
            }
        },
        (ResolverState::Fetching { hops_left }, FetchEvent::ConnectionFailed) => spec_finish(
            FetchOutcome::TransportFailure,
        ),
        (ResolverState::ReadingBody, FetchEvent::BodyOk { body }) => (
            ResolverState::Decoding,
            ResolverAction::Decode { body },
        ),
        (ResolverState::ReadingBody, FetchEvent::BodyOverflow) => spec_finish(
            FetchOutcome::DecodeFailure,
        ),
        (ResolverState::ReadingBody, FetchEvent::BodyFailed) => spec_finish(
            FetchOutcome::TransportFailure,
        ),
        (ResolverState::Decoding, FetchEvent::DecodeOk { feed_json }) => spec_finish(
            FetchOutcome::Success { feed_json },
        ),
        (ResolverState::Decoding, FetchEvent::DecodeFailed) => spec_finish(
            FetchOutcome::DecodeFailure,
        ),
        (_, _) => spec_finish(FetchOutcome::TransportFailure),
    }
}

/// The state a resolution starts in.
pub fn initial_state() -> (s: ResolverState)
    ensures
        s == spec_initial_state(),
{
    ResolverState::Fetching { hops_left: MAX_REDIRECT_HOPS }
}

/// One step of the resolver. Total: every state/event pair has a defined
/// successor, given exactly by [`spec_step`].
pub fn resolver_step(state: ResolverState, event: FetchEvent) -> (r: (ResolverState, ResolverAction))
    ensures
        r == spec_step(state, event),
{
    match (state, event) {
        (ResolverState::Fetching { hops_left }, FetchEvent::Head { status, location }) => {
            if is_success_status(status) {
                (ResolverState::ReadingBody, ResolverAction::ReadBody { limit: BODY_CAP_BYTES })
            } else if is_redirection_status(status) && hops_left > 0 {
                match location {
                    Some(url) => (
                        ResolverState::Fetching { hops_left: hops_left - 1 },
                        ResolverAction::Request { url, timeout_secs: REQUEST_TIMEOUT_SECS },
                    ),
                    None => finish(FetchOutcome::RedirectResolutionFailure),
                }
            } else {
                finish(FetchOutcome::UpstreamStatus { code: status })
            }
        },
        (ResolverState::Fetching { hops_left: _ }, FetchEvent::ConnectionFailed) => finish(
            FetchOutcome::TransportFailure,
        ),
        (ResolverState::ReadingBody, FetchEvent::BodyOk { body }) => (
            ResolverState::Decoding,
            ResolverAction::Decode { body },
        ),
        (ResolverState::ReadingBody, FetchEvent::BodyOverflow) => finish(
            FetchOutcome::DecodeFailure,
        ),
        (ResolverState::ReadingBody, FetchEvent::BodyFailed) => finish(
            FetchOutcome::TransportFailure,
        ),
        (ResolverState::Decoding, FetchEvent::DecodeOk { feed_json }) => finish(
            FetchOutcome::Success { feed_json },
        ),
        (ResolverState::Decoding, FetchEvent::DecodeFailed) => finish(FetchOutcome::DecodeFailure),
        (_, _) => finish(FetchOutcome::TransportFailure),
    }
}

/// Emit the response for a terminal outcome.
fn finish(o: FetchOutcome) -> (r: (ResolverState, ResolverAction))
    ensures
        r == spec_finish(o),
{
    (ResolverState::Done, ResolverAction::Respond { response: outcome_to_response(o) })
}

/// A whole resolution, as the fold of [`spec_step`] over a sequence of
/// events: the state it ends in, and every action it emitted on the way.
pub open spec fn spec_run(state: ResolverState, events: Seq<FetchEvent>) -> (
    ResolverState,
    Seq<ResolverAction>,
)
    decreases events.len(),
{
    if events.len() == 0 {
        (state, Seq::<ResolverAction>::empty())
    } else {
        let first = spec_step(state, events[0]);
        let rest = spec_run(first.0, events.drop_first());
        (rest.0, seq![first.1] + rest.1)
    }
}

/// How many of the emitted actions are outbound requests.
pub open spec fn spec_request_count(actions: Seq<ResolverAction>) -> int
    decreases actions.len(),
{
    if actions.len() == 0 {
        0
    } else {
        (if actions[0] is Request {
            1int
        } else {
            0int
        }) + spec_request_count(actions.drop_first())
    }
}

/// How many further outbound requests a state may still cause.
pub open spec fn spec_request_budget(state: ResolverState) -> int {
    match state {
        ResolverState::Fetching { hops_left } => hops_left as int,
        _ => 0,
    }
}

proof fn lemma_request_count_cons(a: ResolverAction, rest: Seq<ResolverAction>)
    ensures
        spec_request_count(seq![a] + rest) == (if a is Request {
            1int
        } else {
            0int
        }) + spec_request_count(rest),
{
    assert((seq![a] + rest).drop_first() =~= rest);
}

/// The redirect budget bounds the outbound traffic: however the network
/// answers, a run emits at most as many request actions as the starting
/// state's budget. From the initial state that budget is
/// [`MAX_REDIRECT_HOPS`], so one inbound call causes at most the first
/// request plus that many re-issues — the resolution depth is bounded by
/// construction, not by the shape of the control flow.
pub proof fn lemma_requests_bounded(state: ResolverState, events: Seq<FetchEvent>)
    ensures
        spec_request_count(spec_run(state, events).1) <= spec_request_budget(state),
    decreases events.len(),
{
    if events.len() > 0 {
        let first = spec_step(state, events[0]);
        let rest = spec_run(first.0, events.drop_first());
        lemma_requests_bounded(first.0, events.drop_first());
        lemma_request_count_cons(first.1, rest.1);
        assert(spec_request_budget(first.0) + (if first.1 is Request {
            1int
        } else {
            0int
        }) <= spec_request_budget(state));
    }
}

/// A 2xx head whose body arrives within the cap and decodes as a feed ends,
/// for every such input, in a 200 response carrying exactly the decoded feed
/// JSON — and on the way the machine asks for the capped body read and for
/// the decoding of exactly the bytes that arrived.
pub proof fn lemma_success_resolution(
    hops_left: u32,
    status: u16,
    location: Option<String>,
    body: Vec<u8>,
    feed_json: String,
)
    requires
        spec_is_success(status),
    ensures
        ({
            let s0 = ResolverState::Fetching { hops_left };
            let first = spec_step(s0, FetchEvent::Head { status, location });
            let second = spec_step(first.0, FetchEvent::BodyOk { body });
            let third = spec_step(second.0, FetchEvent::DecodeOk { feed_json });
            &&& first.1 == (ResolverAction::ReadBody { limit: BODY_CAP_BYTES })
            &&& second.1 == (ResolverAction::Decode { body })
            &&& third.0 == ResolverState::Done
            &&& third.1 == (ResolverAction::Respond {
                response: ServiceResponse { status: HTTP_OK, body: Some(feed_json) },
            })
        }),
{
}

/// Single-hop equivalence: a followable redirect whose target itself answers
/// 2xx resolves exactly as resolving the target directly would. The machine
/// re-issues the request to the target, and from then on it behaves, step for
/// step and action for action, as a fresh resolution fed the same events.
pub proof fn lemma_single_hop_equivalence(
    redirect_status: u16,
    target: String,
    events: Seq<FetchEvent>,
)
    requires
        spec_is_redirection(redirect_status),
        events.len() > 0,
        events[0] matches FetchEvent::Head { status, .. } && spec_is_success(status),
    ensures
        spec_step(
            spec_initial_state(),
            FetchEvent::Head { status: redirect_status, location: Some(target) },
        ).1 == (ResolverAction::Request { url: target, timeout_secs: REQUEST_TIMEOUT_SECS }),
        spec_run(
            spec_step(
                spec_initial_state(),
                FetchEvent::Head { status: redirect_status, location: Some(target) },
            ).0,
            events,
        ) == spec_run(spec_initial_state(), events),
{
    let hop = spec_step(
        spec_initial_state(),
        FetchEvent::Head { status: redirect_status, location: Some(target) },
    );
    assert(spec_step(hop.0, events[0]) == spec_step(spec_initial_state(), events[0]));
}

/// Two chained redirects are not followed through: after the first hop the
/// redirect budget is spent, so the second redirect's status is passed
/// through with an empty body, whatever its own `Location` says. The content
/// behind the second redirect is never requested.
pub proof fn lemma_second_redirect_passes_through(
    first_status: u16,
    first_target: String,
    second_status: u16,
    second_location: Option<String>,
)
    requires
        spec_is_redirection(first_status),
        spec_is_redirection(second_status),
    ensures
        ({
            let first = spec_step(
                spec_initial_state(),
                FetchEvent::Head { status: first_status, location: Some(first_target) },
            );
            let second = spec_step(
                first.0,
                FetchEvent::Head { status: second_status, location: second_location },
            );
            &&& first.1 == (ResolverAction::Request {
                url: first_target,
                timeout_secs: REQUEST_TIMEOUT_SECS,
            })
            &&& second.0 == ResolverState::Done
            &&& second.1 == (ResolverAction::Respond { response: empty_response(second_status) })
        }),
{
}

/// A followable redirect without a usable `Location` header ends at once in
/// a 500 with an empty body.
pub proof fn lemma_redirect_without_location(hops_left: u32, status: u16)
    requires
        spec_is_redirection(status),
        hops_left > 0,
    ensures
        spec_step(
            ResolverState::Fetching { hops_left },
            FetchEvent::Head { status, location: None },
        ) == spec_finish(FetchOutcome::RedirectResolutionFailure),
        spec_finish(FetchOutcome::RedirectResolutionFailure).1 == (ResolverAction::Respond {
            response: empty_response(HTTP_INTERNAL_SERVER_ERROR),
        }),
{
}

/// A transport-level failure — before the head arrives or while the body is
/// being read — ends the resolution in a 500 with an empty body; it is never
/// retried.
pub proof fn lemma_transport_failure_is_500(hops_left: u32)
    ensures
        spec_step(ResolverState::Fetching { hops_left }, FetchEvent::ConnectionFailed).1
            == (ResolverAction::Respond { response: empty_response(HTTP_INTERNAL_SERVER_ERROR) }),
        spec_step(ResolverState::Fetching { hops_left }, FetchEvent::ConnectionFailed).0
            == ResolverState::Done,
        spec_step(ResolverState::ReadingBody, FetchEvent::BodyFailed).1
            == (ResolverAction::Respond { response: empty_response(HTTP_INTERNAL_SERVER_ERROR) }),
{
}

/// A body that crossed the size cap, and a body the decoder rejected, both
/// end in a 500 with an empty body: no partial or oversized content is ever
/// relayed.
pub proof fn lemma_rejected_body_is_500()
    ensures
        spec_step(ResolverState::ReadingBody, FetchEvent::BodyOverflow).1
            == (ResolverAction::Respond { response: empty_response(HTTP_INTERNAL_SERVER_ERROR) }),
        spec_step(ResolverState::Decoding, FetchEvent::DecodeFailed).1
            == (ResolverAction::Respond { response: empty_response(HTTP_INTERNAL_SERVER_ERROR) }),
{
}

} // verus!
