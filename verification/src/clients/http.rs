//! Requests and replies, as the clients build and read them. The sending itself is done
//! elsewhere.

use vstd::prelude::*;
use crate::error::AppError;
use crate::error::ErrorKind;
use crate::error::Failure;

verus! {

/// How a request is made.
#[derive(Debug, Clone, Copy, PartialEq, Eq, Structural)]
pub enum HttpMethod {
    Get,
    Post,
}

/// A request that is ready to be sent. What a `Post` carries is built beside it.
#[derive(Debug)]
pub struct ApiRequest {
    pub method: HttpMethod,
    pub url: String,
    /// The headers, each a name and a value, in the order in which they are set.
    pub headers: Vec<(String, String)>,
}

/// A request as the contracts see it.
pub struct ApiRequestView {
    pub method: HttpMethod,
    pub url: Seq<char>,
    pub headers: Seq<(Seq<char>, Seq<char>)>,
}

impl View for ApiRequest {
    type V = ApiRequestView;

    open spec fn view(&self) -> ApiRequestView {
        ApiRequestView { method: self.method, url: self.url@, headers: self.headers.deep_view() }
    }
}

/// What came of a request.
#[derive(Debug)]
pub enum ApiReply<T> {
    /// The request could not be carried out; the text says why.
    Unreachable(String),
    /// The service answered with a status that is no success. `code` is the number of the
    /// status, `status` the status as it is shown, the number and the reason; `body` is
    /// what the answer held.
    Rejected { code: u16, status: String, body: String },
    /// The service answered with success, but the answer could not be read; the text
    /// says why.
    Garbled(String),
    /// The service answered with success, and this is what the answer held.
    Accepted(T),
}

/// The failure of a collaborating service, with the given message.
pub open spec fn service_failure(message: Seq<char>) -> Failure {
    Failure { kind: ErrorKind::ExternalService, message }
}

/// A failure inside this service, with the given message.
pub open spec fn internal_failure(message: Seq<char>) -> Failure {
    Failure { kind: ErrorKind::Internal, message }
}

/// The three texts, one after the other.
pub fn join3(a: &str, b: &str, c: &str) -> (r: String)
    ensures
        r@ == a@ + b@ + c@,
{
    String::from_str(a).concat(b).concat(c)
}

/// The four texts, one after the other.
pub fn join4(a: &str, b: &str, c: &str, d: &str) -> (r: String)
    ensures
        r@ == a@ + b@ + c@ + d@,
{
    String::from_str(a).concat(b).concat(c).concat(d)
}

/// The failure of a collaborating service whose message is `lead` followed by `detail`.
pub fn service_error(lead: &str, detail: &str) -> (e: AppError)
    ensures
        e@ == service_failure(lead@ + detail@),
{
    AppError::ExternalService(String::from_str(lead).concat(detail))
}

/// A failure inside this service whose message is `lead` followed by `detail`.
pub fn internal_error(lead: &str, detail: &str) -> (e: AppError)
    ensures
        e@ == internal_failure(lead@ + detail@),
{
    AppError::Internal(String::from_str(lead).concat(detail))
}

} // verus!
