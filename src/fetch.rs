use vstd::prelude::*;
use crate::text::str_equals;

verus! {

/// What `str::to_uppercase` gives for `s`.
pub uninterp spec fn upper_of(s: Seq<char>) -> Seq<char>;

/// Relies on str::to_uppercase: the upper-case mapping of `s`, which
/// depends on its characters alone.
#[verifier::external_body]
fn uppercase(s: &str) -> (r: String)
    ensures
        r@ == upper_of(s@),
{
    s.to_uppercase()
}

/// How a one-shot request to a secondary price source is to be sent.
#[derive(Debug, PartialEq, Eq)]
pub enum RequestPlan {
    /// A GET request with no body.
    Get,
    /// A POST request; a body, when given, is sent as JSON.
    Post { json_body: Option<String> },
}

/// Failures of a one-shot fetch.
#[derive(Debug, PartialEq, Eq)]
pub enum FetchError {
    /// The method is neither GET nor POST; no request is made.
    UnsupportedMethod,
    /// The client could not be built or the request could not be sent.
    Transport(String),
    /// The response body could not be read as text.
    UnsupportedResponse(String),
}

/// The plan for an already upper-cased method name.
pub open spec fn plan_for(upper: Seq<char>, body: Option<String>) -> Result<RequestPlan, FetchError> {
    if upper == "GET"@ {
        Ok(RequestPlan::Get)
    } else if upper == "POST"@ {
        Ok(RequestPlan::Post { json_body: body })
    } else {
        Err(FetchError::UnsupportedMethod)
    }
}

/// Plans a request from an upper-case method name: GET drops any body,
/// POST carries it as JSON, anything else is refused.
pub fn plan_for_method(upper: &str, body: Option<String>) -> (r: Result<RequestPlan, FetchError>)
    ensures
        r == plan_for(upper@, body),
{
    if str_equals(upper, "GET") {
        Ok(RequestPlan::Get)
    } else if str_equals(upper, "POST") {
        Ok(RequestPlan::Post { json_body: body })
    } else {
        Err(FetchError::UnsupportedMethod)
    }
}

/// Plans a request from a method name in any case. A method other than
/// GET or POST is refused before any network call.
pub fn plan_request(method: &str, body: Option<String>) -> (r: Result<RequestPlan, FetchError>)
    ensures
        r == plan_for(upper_of(method@), body),
{
    let upper = uppercase(method);
    plan_for_method(upper.as_str(), body)
}

} // verus!
