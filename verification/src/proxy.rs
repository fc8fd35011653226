//! The request proxy: what is sent to the worker for a method, a path and an
//! optional body, and what the caller gets back.
//!
//! The proxy decides; sending is left to the caller, which performs the
//! planned request and reports the outcome.

use vstd::prelude::*;
use vstd::string::*;
use crate::errors::ProxyError;

verus! {

/// The worker's fixed local endpoint.
pub const WORKER_BASE_URL: &'static str = "http://127.0.0.1:3000";

/// The content type announced for every body.
pub const JSON_CONTENT_TYPE: &'static str = "application/json";

/// The methods the proxy forwards.
#[derive(Clone, Copy, Debug, PartialEq, Eq, Structural)]
pub enum HttpMethod {
    Get,
    Post,
    Put,
    Delete,
}

/// The upper-case form of a text as `str::to_uppercase` computes it.
pub uninterp spec fn uppercase_of(text: Seq<char>) -> Seq<char>;

/// `str::to_uppercase` of the standard library. Trusted: the result is named,
/// not described, since the mapping is the Unicode one.
#[verifier::external_body]
fn to_uppercase(text: &str) -> (upper: String)
    ensures
        upper@ == uppercase_of(text@),
{
    text.to_uppercase()
}

/// The method that an upper-case name stands for.
pub open spec fn method_named(upper: Seq<char>) -> Option<HttpMethod> {
    if upper == "GET"@ {
        Some(HttpMethod::Get)
    } else if upper == "POST"@ {
        Some(HttpMethod::Post)
    } else if upper == "PUT"@ {
        Some(HttpMethod::Put)
    } else if upper == "DELETE"@ {
        Some(HttpMethod::Delete)
    } else {
        None
    }
}

/// The method that an upper-case name stands for, if it is one of the four.
pub fn method_from_uppercase(upper: &str) -> (method: Option<HttpMethod>)
    ensures
        method == method_named(upper@),
{
    let name = String::from_str(upper);
    if name == String::from_str("GET") {
        Some(HttpMethod::Get)
    } else if name == String::from_str("POST") {
        Some(HttpMethod::Post)
    } else if name == String::from_str("PUT") {
        Some(HttpMethod::Put)
    } else if name == String::from_str("DELETE") {
        Some(HttpMethod::Delete)
    } else {
        None
    }
}

/// The method that a name stands for, letter case aside.
pub fn parse_method(method: &str) -> (parsed: Option<HttpMethod>)
    ensures
        parsed == method_named(uppercase_of(method@)),
{
    let upper = to_uppercase(method);
    method_from_uppercase(upper.as_str())
}

/// The address of a path at the worker: the base followed by the path as
/// given.
pub fn worker_url(path: &str) -> (url: String)
    ensures
        url@ == WORKER_BASE_URL@ + path@,
{
    String::from_str(WORKER_BASE_URL).concat(path)
}

/// A request to the worker, ready to be sent.
#[derive(Clone, Debug, PartialEq, Eq)]
pub struct ForwardRequest {
    pub method: HttpMethod,
    pub url: String,
    /// The body, sent as it is.
    pub body: Option<String>,
    /// The content type header; present exactly when a body is.
    pub content_type: Option<String>,
}

/// The text of an optional string.
pub open spec fn optional_string_text(text: Option<String>) -> Option<Seq<char>> {
    match text {
        Some(t) => Some(t@),
        None => None,
    }
}

/// Whether `request` is the request for `method`, `path` and `body`: the
/// address is the base followed by the path, the body is unchanged, and the
/// JSON content type accompanies a body and nothing else.
pub open spec fn is_forward_of(
    request: ForwardRequest,
    method: HttpMethod,
    path: Seq<char>,
    body: Option<Seq<char>>,
) -> bool {
    &&& request.method == method
    &&& request.url@ == WORKER_BASE_URL@ + path
    &&& optional_string_text(request.body) == body
    &&& optional_string_text(request.content_type) == (if body is Some {
        Some(JSON_CONTENT_TYPE@)
    } else {
        None
    })
}

/// The request for a method already recognised.
pub fn forward_request(method: HttpMethod, path: &str, body: Option<String>) -> (request:
    ForwardRequest)
    ensures
        is_forward_of(request, method, path@, optional_string_text(body)),
{
    let content_type = match &body {
        Some(_) => Some(String::from_str(JSON_CONTENT_TYPE)),
        None => None,
    };
    ForwardRequest { method, url: worker_url(path), body, content_type }
}

/// Plans the request for `method`, `path` and `body`, or refuses a method
/// that is none of GET, POST, PUT and DELETE in any letter case. A refusal
/// plans nothing, so nothing is sent.
pub fn plan_forward(method: &str, path: &str, body: Option<String>) -> (plan: Result<
    ForwardRequest,
    ProxyError,
>)
    ensures
        match method_named(uppercase_of(method@)) {
            Some(m) => plan matches Ok(request) && is_forward_of(
                request,
                m,
                path@,
                optional_string_text(body),
            ),
            None => plan matches Err(ProxyError::UnsupportedMethod(refused)) && refused@
                == method@,
        },
{
    match parse_method(method) {
        Some(m) => Ok(forward_request(m, path, body)),
        None => Err(ProxyError::UnsupportedMethod(method.to_owned())),
    }
}

/// What the caller gets once the request was attempted: the response text as
/// it came, or the cause of the failure as a transport error.
pub fn forward_outcome(attempt: Result<String, String>) -> (outcome: Result<String, ProxyError>)
    ensures
        attempt matches Ok(text) ==> outcome matches Ok(got) && got@ == text@,
        attempt matches Err(cause) ==> outcome matches Err(ProxyError::Transport(told)) && told@
            == cause@,
{
    match attempt {
        Ok(text) => Ok(text),
        Err(cause) => Err(ProxyError::Transport(cause)),
    }
}

} // verus!
