//! HTTP status classification, fetch outcomes, and the uniform mapping from
//! an outcome to the externally visible service response.

use vstd::prelude::*;

verus! {

/// Hard ceiling on the number of body bytes read from an upstream response.
pub const BODY_CAP_BYTES: usize = 1048576;

/// How many redirect hops the resolver follows before passing a redirect
/// status through to the caller.
pub const MAX_REDIRECT_HOPS: u32 = 1;

/// Timeout, in seconds, granted to each outbound attempt (each redirect hop
/// gets a fresh budget).
pub const REQUEST_TIMEOUT_SECS: u64 = 60;

pub const HTTP_OK: u16 = 200;
pub const HTTP_BAD_REQUEST: u16 = 400;
pub const HTTP_INTERNAL_SERVER_ERROR: u16 = 500;

/// The identifying `User-Agent` value every outbound request carries.
pub fn user_agent() -> (s: &'static str)
    ensures
        s@ == "rssss"@,
{
    "rssss"
}

/// A status in the 2xx class: the response carries the requested content.
pub open spec fn spec_is_success(status: u16) -> bool {
    200 <= status < 300
}

/// A status in the 3xx class: the response redirects elsewhere.
pub open spec fn spec_is_redirection(status: u16) -> bool {
    300 <= status < 400
}

pub fn is_success_status(status: u16) -> (r: bool)
    ensures
        r == spec_is_success(status),
{
    200 <= status && status < 300
}

pub fn is_redirection_status(status: u16) -> (r: bool)
    ensures
        r == spec_is_redirection(status),
{
    300 <= status && status < 400
}

/// The externally visible result of one inbound request: a status code and,
/// on success only, a JSON feed body.
#[derive(Debug, PartialEq, Eq)]
pub struct ServiceResponse {
    pub status: u16,
    pub body: Option<String>,
}

/// A response with the given status and an empty body.
pub open spec fn empty_response(status: u16) -> ServiceResponse {
    ServiceResponse { status, body: None }
}

/// Every way one resolution can end.
#[derive(Debug, PartialEq, Eq)]
pub enum FetchOutcome {
    /// The upstream returned 2xx, the body fit under the cap, and the decoder
    /// produced a feed, already serialized as JSON.
    Success { feed_json: String },
    /// A terminal non-2xx, non-followable status; its code is passed through.
    UpstreamStatus { code: u16 },
    /// A followable redirect whose `Location` header was missing or unusable.
    RedirectResolutionFailure,
    /// Connection, name resolution, or timeout failure, before or during the
    /// body read.
    TransportFailure,
    /// The body crossed the size cap, or the decoder rejected it.
    DecodeFailure,
}

/// The uniform mapping from a fetch outcome to the service response:
/// success carries the feed with status 200, an upstream status is passed
/// through with an empty body, and every failure is a bare 500. No failure
/// detail reaches the caller.
pub open spec fn spec_outcome_response(o: FetchOutcome) -> ServiceResponse {
    match o {
        FetchOutcome::Success { feed_json } => ServiceResponse {
            status: HTTP_OK,
            body: Some(feed_json),
        },
        FetchOutcome::UpstreamStatus { code } => empty_response(code),
        FetchOutcome::RedirectResolutionFailure => empty_response(HTTP_INTERNAL_SERVER_ERROR),
        FetchOutcome::TransportFailure => empty_response(HTTP_INTERNAL_SERVER_ERROR),
        FetchOutcome::DecodeFailure => empty_response(HTTP_INTERNAL_SERVER_ERROR),
    }
}

pub fn outcome_to_response(o: FetchOutcome) -> (r: ServiceResponse)
    ensures
        r == spec_outcome_response(o),
{
    match o {
        FetchOutcome::Success { feed_json } => ServiceResponse {
            status: HTTP_OK,
            body: Some(feed_json),
        },
        FetchOutcome::UpstreamStatus { code } => ServiceResponse { status: code, body: None },
        FetchOutcome::RedirectResolutionFailure => ServiceResponse {
            status: HTTP_INTERNAL_SERVER_ERROR,
            body: None,
        },
        FetchOutcome::TransportFailure => ServiceResponse {
            status: HTTP_INTERNAL_SERVER_ERROR,
            body: None,
        },
        FetchOutcome::DecodeFailure => ServiceResponse {
            status: HTTP_INTERNAL_SERVER_ERROR,
            body: None,
        },
    }
}

} // verus!
