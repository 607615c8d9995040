//! The endpoint's cross-origin policy, as plain verified data.
//!
//! The endpoint must be reachable from arbitrary browser origins: every
//! origin is answered with the wildcard allow-origin value, only GET and
//! POST are allowed as methods, and `Content-Type` is allowed as a request
//! header. The server wiring reads this policy and emits the headers.

use vstd::prelude::*;

verus! {

/// What the endpoint allows cross-origin callers.
#[derive(Debug, PartialEq, Eq, Clone, Copy)]
pub struct CorsPolicy {
    /// Any `Origin` is answered with the wildcard allow-origin value.
    pub any_origin: bool,
    pub allow_get: bool,
    pub allow_post: bool,
    /// `Content-Type` is allowed as a request header.
    pub allow_content_type_header: bool,
}

/// The policy of the feed endpoint: wildcard origin, methods GET and POST,
/// `Content-Type` allowed.
pub fn endpoint_cors_policy() -> (p: CorsPolicy)
    ensures
        p.any_origin,
        p.allow_get,
        p.allow_post,
        p.allow_content_type_header,
{
    CorsPolicy { any_origin: true, allow_get: true, allow_post: true, allow_content_type_header: true }
}

/// The allow-origin header value sent under a wildcard policy.
pub fn allow_origin_wildcard() -> (s: &'static str)
    ensures
        s@ == "*"@,
{
    "*"
}

} // verus!
