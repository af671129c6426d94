//! The errors of client operations.
use vstd::prelude::*;

use vstd::string::*;

use http::Error as HttpError;
use hyper::Error as HyperError;
use serde_json::Error as JsonError;
use tokio::time::error::Elapsed;
use url::ParseError as UrlParseError;

use crate::text::join;

verus! {

#[verifier::external_type_specification]
#[verifier::external_body]
pub struct ExUrlParseError(UrlParseError);

#[verifier::external_type_specification]
#[verifier::external_body]
pub struct ExHttpError(HttpError);

#[verifier::external_type_specification]
#[verifier::external_body]
pub struct ExHyperError(HyperError);

#[verifier::external_type_specification]
#[verifier::external_body]
pub struct ExJsonError(JsonError);

#[verifier::external_type_specification]
#[verifier::external_body]
pub struct ExElapsed(Elapsed);

/// The character sequences of a list of static strings.
pub open spec fn str_views(v: Seq<&'static str>) -> Seq<Seq<char>> {
    v.map_values(|s: &'static str| s@)
}

/// The names joined into one line, separated by `, `.
pub fn strs_to_str(strs: &Vec<&'static str>) -> (r: String)
    ensures
        r@ == join(str_views(strs@), ", "@),
{
    let mut out = String::new();
    let mut i: usize = 0;
    while i < strs.len()
        invariant
            i <= strs.len(),
            out@ == join(str_views(strs@.subrange(0, i as int)), ", "@),
        decreases strs.len() - i,
    {
        let ghost before = str_views(strs@.subrange(0, i as int));
        let ghost after = str_views(strs@.subrange(0, i + 1));
        assert(after.drop_last() =~= before);
        if i > 0 {
            out.append(", ");
        }
        out.append(strs[i]);
        assert(out@ =~= join(after, ", "@));
        i = i + 1;
    }
    assert(strs@.subrange(0, i as int) =~= strs@);
    out
}

/// High-level error for all operations.
#[derive(Debug)]
pub enum Error {
    /// The Consul endpoint given to configure a client was invalid.
    InvalidConsulEndpoint(UrlParseError),
    /// The Consul endpoint cannot have path segments appended to it.
    InvalidEndpoint,
    /// JSON serialization error during building a request.
    InvalidRequestBody(JsonError),
    /// Unable to construct a valid HTTP request for an operation.
    InvalidRequest(HttpError),
    /// Error occurred during the sending of a request to Consul.
    RequestError(HyperError),
    /// Request timed out.
    RequestTimedOut(Elapsed),
    /// Error occurred while parsing a response from Consul.
    ResponseError(ResponseError),
}

/// High-level error for responses.
#[derive(Debug)]
pub enum ResponseError {
    /// The HTTP status code for the response was unexpected.
    UnexpectedStatus(u16),
    /// The response carried headers that could not be parsed; each name is listed once.
    InvalidHeaders(Vec<&'static str>),
    /// Failed to consume/read the entire body of the response.
    BodyConsumeFailure(HyperError),
    /// The response body was not JSON or did not match the expected JSON structure.
    InvalidPayload(JsonError),
}

impl ResponseError {
    /// A description of the error: for invalid headers, with the names of those headers.
    pub fn message(&self) -> (r: String)
        ensures
            self is UnexpectedStatus ==> r@ == "unexpected status code"@,
            self is BodyConsumeFailure ==> r@ == "failed to consume response"@,
            self is InvalidPayload ==> r@ == "invalid JSON payload"@,
            self is InvalidHeaders ==> r@ == "missing or invalid response headers: "@
                + join(str_views(self->InvalidHeaders_0@), ", "@),
    {
        match self {
            ResponseError::UnexpectedStatus(_) => String::from_str("unexpected status code"),
            ResponseError::InvalidHeaders(names) => {
                let mut s = String::from_str("missing or invalid response headers: ");
                let list = strs_to_str(names);
                s.append(list.as_str());
                s
            },
            ResponseError::BodyConsumeFailure(_) => String::from_str("failed to consume response"),
            ResponseError::InvalidPayload(_) => String::from_str("invalid JSON payload"),
        }
    }
}

} // verus!
