//! Query intake: extracting the required `url` parameter from an inbound
//! request's query parameters.
//!
//! A missing parameter is answered with a 400 and an empty body, and no
//! resolution is started — the only way an outbound request ever arises is
//! through the action that a successful intake returns.

use vstd::prelude::*;

use crate::http::HTTP_BAD_REQUEST;
use crate::http::REQUEST_TIMEOUT_SECS;
use crate::http::ServiceResponse;
use crate::http::empty_response;
use crate::resolver::ResolverAction;
use crate::resolver::ResolverState;
use crate::resolver::initial_state;
use crate::resolver::spec_initial_state;

verus! {

/// The name of the one query parameter the endpoint takes.
pub open spec fn url_key() -> Seq<char> {
    "url"@
}

/// The value of the first parameter named `url`, scanning from index `i`.
pub open spec fn spec_find_url_from(params: Seq<(String, String)>, i: int) -> Option<Seq<char>>
    decreases params.len() - i,
{
    if i < 0 || i >= params.len() {
        None
    } else if params[i].0@ == url_key() {
        Some(params[i].1@)
    } else {
        spec_find_url_from(params, i + 1)
    }
}

/// The value of the first parameter named `url`, if any.
pub open spec fn spec_find_url(params: Seq<(String, String)>) -> Option<Seq<char>> {
    spec_find_url_from(params, 0)
}

/// Extracts the required `url` parameter: the value of the first pair whose
/// key is `url`, or a bare 400 response when no pair carries that key.
pub fn extract_url(params: &Vec<(String, String)>) -> (r: Result<String, ServiceResponse>)
    ensures
        match r {
            Ok(url) => spec_find_url(params@) == Some(url@),
            Err(resp) => spec_find_url(params@) is None && resp == empty_response(
                HTTP_BAD_REQUEST,
            ),
        },
{
    let key: String = String::from_str("url");
    let n = params.len();
    let mut i: usize = 0;
    while i < n
        invariant
            i <= n,
            n == params@.len(),
            key@ == url_key(),
            spec_find_url(params@) == spec_find_url_from(params@, i as int),
        decreases n - i,
    {
        if params[i].0 == key {
            return Ok(params[i].1.clone());
        }
        i = i + 1;
    }
    Err(ServiceResponse { status: HTTP_BAD_REQUEST, body: None })
}

/// Whole-request intake: with a `url` parameter present, the resolution to
/// start (its initial state, and the first outbound request as an action);
/// without one, the 400 response to send. No action — hence no outbound
/// call — exists in the missing-parameter case.
pub fn handle_query(params: &Vec<(String, String)>) -> (r: Result<
    (ResolverState, ResolverAction),
    ServiceResponse,
>)
    ensures
        r is Ok <==> spec_find_url(params@) is Some,
        match r {
            Ok(start) => {
                &&& start.0 == spec_initial_state()
                &&& (start.1 matches ResolverAction::Request { url, timeout_secs }
                    && spec_find_url(params@) == Some(url@) && timeout_secs
                    == REQUEST_TIMEOUT_SECS)
            },
            Err(resp) => resp == empty_response(HTTP_BAD_REQUEST),
        },
{
    match extract_url(params) {
        Ok(url) => Ok(
            (
                initial_state(),
                ResolverAction::Request { url, timeout_secs: REQUEST_TIMEOUT_SECS },
            ),
        ),
        Err(resp) => Err(resp),
    }
}

} // verus!
