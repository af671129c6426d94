//! Building requests against a Consul endpoint, and reading the parts of a response that the
//! protocol defines.
//!
//! The endpoint is held as the text of its parsed URL; the URL operations map text to text.
use vstd::prelude::*;
use vstd::string::*;

use http::header::{HeaderName, HeaderValue};
use http::Error as HttpError;
use url::ParseError as UrlParseError;
use url::Url;

use crate::common::{malformed_headers, metadata_of, pairs_view, QueryMetadata, RequestOptions};
use crate::errors::{str_views, Error, ResponseError};
use crate::text::string_views;

verus! {

/// The text parses as an absolute URL.
pub uninterp spec fn url_parses(s: Seq<char>) -> bool;

/// The serialization of the URL that the text parses as.
pub uninterp spec fn url_serialization(s: Seq<char>) -> Seq<char>;

/// The URL that the text parses as can be a base: path segments can be appended to it.
pub uninterp spec fn url_can_be_base(s: Seq<char>) -> bool;

/// The decoded name/value pairs of the query of the URL that the text parses as, in order.
pub uninterp spec fn url_query(s: Seq<char>) -> Seq<(Seq<char>, Seq<char>)>;

/// The serialization of the URL that the text parses as, with the segments appended to its path.
pub uninterp spec fn url_with_segments(s: Seq<char>, segments: Seq<Seq<char>>) -> Seq<char>;

/// The serialization of the URL that the text parses as, with the segments appended to its path
/// and its query replaced by the encoded pairs.
pub uninterp spec fn url_with_segments_and_query(
    s: Seq<char>,
    segments: Seq<Seq<char>>,
    pairs: Seq<(Seq<char>, Seq<char>)>,
) -> Seq<char>;

/// The text is a valid header name: a non-empty token.
pub uninterp spec fn valid_header_name(s: Seq<char>) -> bool;

/// The text is a valid header value: each character is a tab, or at least a space and not DEL.
/// Characters beyond ASCII encode as bytes of 128 and above, which are all allowed.
pub open spec fn valid_header_value(s: Seq<char>) -> bool {
    forall|i: int| 0 <= i < s.len() ==> (#[trigger] s[i] == '\t' || (s[i] as u32 >= 32 && s[i] as u32 != 127))
}

/// Every pair is a valid header name and value.
pub open spec fn valid_headers(h: Seq<(Seq<char>, Seq<char>)>) -> bool {
    forall|i: int| 0 <= i < h.len() ==> valid_header_name((#[trigger] h[i]).0) && valid_header_value(h[i].1)
}

/// The URL can take path segments: it parses and can be a base.
pub open spec fn url_extensible(s: Seq<char>) -> bool {
    url_parses(s) && url_can_be_base(s)
}

/// Relies on `url::Url::parse`, then `Url::as_str`: the serialization of the parsed URL.
#[verifier::external_body]
fn parse_url(s: &str) -> (r: Result<String, UrlParseError>)
    ensures
        r is Ok <==> url_parses(s@),
        r is Ok ==> r->Ok_0@ == url_serialization(s@),
{
    Url::parse(s).map(|u| u.as_str().to_string())
}

/// Relies on `url::Url::parse`, then `Url::query_pairs`: the decoded pairs of the query.
#[verifier::external_body]
fn query_pairs_of(s: &str) -> (r: Option<Vec<(String, String)>>)
    ensures
        r is Some <==> url_parses(s@),
        r is Some ==> pairs_view(r->Some_0@) == url_query(s@),
{
    Url::parse(s).ok().map(|u| u.query_pairs().into_owned().collect())
}

/// Relies on `url::Url::parse`, then `Url::path_segments_mut` and `PathSegmentsMut::extend`: the
/// URL with the segments appended, or nothing when it does not parse or cannot be a base.
#[verifier::external_body]
fn extend_path(s: &str, segments: &Vec<String>) -> (r: Option<String>)
    ensures
        r is Some <==> (url_parses(s@) && url_can_be_base(s@)),
        r is Some ==> r->Some_0@ == url_with_segments(s@, string_views(segments@)),
{
    let mut u = Url::parse(s).ok()?;
    u.path_segments_mut().ok()?.extend(segments.iter());
    Some(u.as_str().to_string())
}

/// Relies on `url::Url::parse`, `Url::path_segments_mut` with `PathSegmentsMut::extend`, then
/// `Url::query_pairs_mut` with `clear` and `extend_pairs`: the URL with the segments appended and
/// the query replaced by the encoded pairs.
#[verifier::external_body]
fn extend_path_and_query(s: &str, segments: &Vec<String>, pairs: &Vec<(String, String)>) -> (r: Option<String>)
    ensures
        r is Some <==> (url_parses(s@) && url_can_be_base(s@)),
        r is Some ==> r->Some_0@ == url_with_segments_and_query(
            s@,
            string_views(segments@),
            pairs_view(pairs@),
        ),
{
    let mut u = Url::parse(s).ok()?;
    u.path_segments_mut().ok()?.extend(segments.iter());
    u.query_pairs_mut().clear().extend_pairs(pairs.iter());
    Some(u.as_str().to_string())
}

/// Relies on `http::header::HeaderName::from_bytes`: fails on a name that is not a valid token.
#[verifier::external_body]
fn check_header_name(name: &str) -> (r: Result<(), HttpError>)
    ensures
        r is Ok <==> valid_header_name(name@),
{
    HeaderName::from_bytes(name.as_bytes()).map(|_| ()).map_err(HttpError::from)
}

/// Relies on `http::header::HeaderValue::from_str`: fails exactly on a byte below 32 other than a
/// tab, or on 127.
#[verifier::external_body]
fn check_header_value(value: &str) -> (r: Result<(), HttpError>)
    ensures
        r is Ok <==> valid_header_value(value@),
{
    HeaderValue::from_str(value).map(|_| ()).map_err(HttpError::from)
}

/// A name of `p`.
pub open spec fn has_name(p: Seq<(Seq<char>, Seq<char>)>, k: Seq<char>) -> bool {
    exists|i: int| 0 <= i < p.len() && (#[trigger] p[i]).0 == k
}

/// The pairs of `e` whose name is not among the names of `p`, in order.
pub open spec fn not_overridden(e: Seq<(Seq<char>, Seq<char>)>, p: Seq<(Seq<char>, Seq<char>)>) -> Seq<(Seq<char>, Seq<char>)>
    decreases e.len(),
{
    if e.len() == 0 {
        seq![]
    } else {
        not_overridden(e.drop_last(), p) + if has_name(p, e.last().0) {
            seq![]
        } else {
            seq![e.last()]
        }
    }
}

/// The endpoint's pairs that the operation does not override, then every pair of the operation.
pub open spec fn merged_query(e: Seq<(Seq<char>, Seq<char>)>, p: Seq<(Seq<char>, Seq<char>)>) -> Seq<(Seq<char>, Seq<char>)> {
    not_overridden(e, p) + p
}

/// Merges the pairs already on an endpoint with those of an operation: an endpoint pair is kept
/// unless the operation has a pair of the same name; every pair of the operation is kept.
pub fn merge_query_pairs(existing: Vec<(String, String)>, projected: Vec<(String, String)>) -> (r: Vec<(String, String)>)
    ensures
        pairs_view(r@) == merged_query(pairs_view(existing@), pairs_view(projected@)),
{
    let ghost e = pairs_view(existing@);
    let ghost p = pairs_view(projected@);
    let mut out: Vec<(String, String)> = Vec::new();
    let mut i: usize = 0;
    while i < existing.len()
        invariant
            i <= existing@.len(),
            e == pairs_view(existing@),
            p == pairs_view(projected@),
            pairs_view(out@) == not_overridden(e.subrange(0, i as int), p),
        decreases existing.len() - i,
    {
        let mut overridden = false;
        let mut j: usize = 0;
        while j < projected.len()
            invariant
                i < existing@.len(),
                j <= projected@.len(),
                e == pairs_view(existing@),
                p == pairs_view(projected@),
                overridden <==> exists|k: int| 0 <= k < j && (#[trigger] p[k]).0 == e[i as int].0,
            decreases projected.len() - j,
        {
            assert(p[j as int].0 == projected@[j as int].0@);
            assert(e[i as int].0 == existing@[i as int].0@);
            if projected[j].0 == existing[i].0 {
                overridden = true;
            }
            j = j + 1;
        }
        assert(overridden <==> has_name(p, e[i as int].0));
        let ghost next = e.subrange(0, i + 1);
        assert(next.drop_last() =~= e.subrange(0, i as int));
        assert(next.last() == e[i as int]);
        if !overridden {
            let name = existing[i].0.clone();
            let value = existing[i].1.clone();
            out.push((name, value));
        }
        assert(pairs_view(out@) =~= not_overridden(next, p));
        i = i + 1;
    }
    assert(e.subrange(0, i as int) =~= e);
    let ghost kept = pairs_view(out@);
    let mut more = projected;
    out.append(&mut more);
    assert(pairs_view(out@) =~= kept + p);
    out
}

/// A request ready for the transport: method, target, headers and body.
#[derive(Debug)]
pub struct PreparedRequest {
    pub method: String,
    pub uri: String,
    pub headers: Vec<(String, String)>,
    pub body: Vec<u8>,
}

/// The query parameters that the options ask for, none without options.
pub open spec fn options_query<O: RequestOptions>(options: Option<&O>) -> Seq<(Seq<char>, Seq<char>)> {
    match options {
        Some(o) => o.query_params(),
        None => seq![],
    }
}

/// The headers that the options ask for, none without options.
pub open spec fn options_headers<O: RequestOptions>(options: Option<&O>) -> Seq<(Seq<char>, Seq<char>)> {
    match options {
        Some(o) => o.header_params(),
        None => seq![],
    }
}

/// The target of a request: the endpoint with the segments appended, and, when the operation
/// has query parameters, its query replaced by their merge over the endpoint's own.
pub open spec fn request_target(
    base: Seq<char>,
    segments: Seq<Seq<char>>,
    q: Seq<(Seq<char>, Seq<char>)>,
) -> Seq<char> {
    if q.len() == 0 {
        url_with_segments(base, segments)
    } else {
        url_with_segments_and_query(base, segments, merged_query(url_query(base), q))
    }
}

/// The client's view of a Consul endpoint, from which requests are built.
#[derive(Debug)]
pub struct HttpClient {
    /// The endpoint's URL, as text.
    pub base_uri: String,
}

impl HttpClient {
    /// Creates a new [`HttpClient`] for the endpoint with this URL.
    pub fn new(base_uri: String) -> (r: HttpClient)
        ensures
            r.base_uri == base_uri,
    {
        HttpClient { base_uri }
    }

    /// Parses the endpoint and creates a client for the parsed URL.
    pub fn from_endpoint(endpoint: &str) -> (r: Result<HttpClient, Error>)
        ensures
            r is Ok <==> url_parses(endpoint@),
            r is Ok ==> r->Ok_0.base_uri@ == url_serialization(endpoint@),
            r is Err ==> r->Err_0 is InvalidConsulEndpoint,
    {
        match parse_url(endpoint) {
            Ok(u) => Ok(HttpClient::new(u)),
            Err(e) => Err(Error::InvalidConsulEndpoint(e)),
        }
    }

    /// Builds a request: the path segments go after the endpoint's path; when the options have
    /// query parameters, they are merged over those of the endpoint, which are otherwise left
    /// as they are; the options' headers are attached, each checked to be a valid header.
    pub fn build_request<O: RequestOptions>(
        &self,
        method: &str,
        url_parts: &Vec<String>,
        options: Option<&O>,
        body: Vec<u8>,
    ) -> (r: Result<PreparedRequest, Error>)
        ensures
            match r {
                Ok(req) => {
                    &&& url_extensible(self.base_uri@)
                    &&& valid_headers(options_headers(options))
                    &&& req.method@ == method@
                    &&& req.uri@ == request_target(
                        self.base_uri@,
                        string_views(url_parts@),
                        options_query(options),
                    )
                    &&& pairs_view(req.headers@) == options_headers(options)
                    &&& req.body == body
                },
                Err(Error::InvalidEndpoint) => !url_extensible(self.base_uri@),
                Err(Error::InvalidRequest(_)) => url_extensible(self.base_uri@)
                    && !valid_headers(options_headers(options)),
                Err(_) => false,
            },
    {
        let pairs = match options {
            Some(o) => o.query_pairs(),
            None => Vec::new(),
        };
        let base = self.base_uri.as_str();
        let uri = if pairs.len() == 0 {
            match extend_path(base, url_parts) {
                Some(u) => u,
                None => return Err(Error::InvalidEndpoint),
            }
        } else {
            let existing = match query_pairs_of(base) {
                Some(q) => q,
                None => return Err(Error::InvalidEndpoint),
            };
            let merged = merge_query_pairs(existing, pairs);
            match extend_path_and_query(base, url_parts, &merged) {
                Some(u) => u,
                None => return Err(Error::InvalidEndpoint),
            }
        };
        let headers = match options {
            Some(o) => o.header_pairs(),
            None => Vec::new(),
        };
        let ghost h = pairs_view(headers@);
        let mut i: usize = 0;
        while i < headers.len()
            invariant
                i <= headers@.len(),
                h == pairs_view(headers@),
                h == options_headers(options),
                url_extensible(self.base_uri@),
                uri@ == request_target(self.base_uri@, string_views(url_parts@), options_query(options)),
                forall|k: int| 0 <= k < i ==> valid_header_name((#[trigger] h[k]).0) && valid_header_value(h[k].1),
            decreases headers.len() - i,
        {
            assert(h[i as int].0 == headers@[i as int].0@ && h[i as int].1 == headers@[i as int].1@);
            if let Err(e) = check_header_name(headers[i].0.as_str()) {
                return Err(Error::InvalidRequest(e));
            }
            if let Err(e) = check_header_value(headers[i].1.as_str()) {
                return Err(Error::InvalidRequest(e));
            }
            i = i + 1;
        }
        Ok(PreparedRequest { method: String::from_str(method), uri, headers, body })
    }
}

/// The status is a success: in the range 200 to 299.
pub open spec fn is_success(status: u16) -> bool {
    200 <= status <= 299
}

/// Checks the status of a query response and reads its metadata from the headers.
pub fn check_query_response(status: u16, headers: &Vec<(String, Vec<u8>)>) -> (r: Result<QueryMetadata, ResponseError>)
    ensures
        !is_success(status) ==> (r matches Err(ResponseError::UnexpectedStatus(s)) && s == status),
        is_success(status) ==> match r {
            Ok(m) => malformed_headers(headers@).len() == 0 && metadata_of(headers@, m),
            Err(e) => malformed_headers(headers@).len() > 0 && e is InvalidHeaders
                && str_views(e->InvalidHeaders_0@) == malformed_headers(headers@),
        },
{
    if status < 200 || status > 299 {
        return Err(ResponseError::UnexpectedStatus(status));
    }
    QueryMetadata::from_headers(headers)
}

} // verus!
