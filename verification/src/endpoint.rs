//! Requests before they are sent: which method, which URL, which headers.
//! URLs are resolved by the `url` crate and held as text.

use vstd::prelude::*;
use vstd::string::*;
use crate::error::{Auth0Error, Auth0ErrorView};

verus! {

/// What `url::Url::parse` makes of `input`: the serialization of the parsed
/// URL, or the error.
pub uninterp spec fn url_parse(input: Seq<char>) -> Result<Seq<char>, url::ParseError>;

/// What `url::Url::join` makes of `reference` on the URL whose serialization
/// is `base`: the serialization of the resolved URL, or the error.
pub uninterp spec fn url_join(base: Seq<char>, reference: Seq<char>) -> Result<
    Seq<char>,
    url::ParseError,
>;

/// The URL that `reference` resolves to against the URL that `base` parses
/// to, or the error of the step that fails.
pub open spec fn resolved(base: Seq<char>, reference: Seq<char>) -> Result<
    Seq<char>,
    url::ParseError,
> {
    match url_parse(base) {
        Ok(href) => url_join(href, reference),
        Err(e) => Err(e),
    }
}

/// Whether `result` is the text, or the error, that `expected` names.
pub open spec fn is_url(
    result: Result<String, url::ParseError>,
    expected: Result<Seq<char>, url::ParseError>,
) -> bool {
    match (result, expected) {
        (Ok(href), Ok(wanted)) => href@ == wanted,
        (Err(e), Err(wanted)) => e == wanted,
        _ => false,
    }
}

/// `url::Url::parse`, with the parsed URL handed back as its serialization.
#[verifier::external_body]
pub(crate) fn parse_url(input: &str) -> (r: Result<String, url::ParseError>)
    ensures
        is_url(r, url_parse(input@)),
{
    url::Url::parse(input).map(String::from)
}

/// `url::Url::join` on the URL that `url::Url::parse` makes of `base`, with
/// the resolved URL handed back as its serialization.
#[verifier::external_body]
pub(crate) fn resolve_url(base: &str, reference: &str) -> (r: Result<String, url::ParseError>)
    ensures
        is_url(
            r,
            match url_parse(base@) {
                Ok(href) => url_join(href, reference@),
                Err(e) => Err(e),
            },
        ),
{
    url::Url::parse(base)?.join(reference).map(String::from)
}

/// The HTTP methods that the API uses.
#[derive(Clone, Copy, Debug, PartialEq, Eq, Structural)]
pub enum Method {
    Get,
    Post,
    Patch,
    Delete,
}

impl Method {
    /// Whether a request with this method carries a JSON body: `POST` and
    /// `PATCH` do.
    pub open spec fn carries_body(self) -> bool {
        self is Post || self is Patch
    }

    /// Tells whether a request with this method carries a JSON body.
    pub fn has_body(&self) -> (r: bool)
        ensures
            r == self.carries_body(),
    {
        match self {
            Method::Post | Method::Patch => true,
            Method::Get | Method::Delete => false,
        }
    }
}

/// One call of the API: the method and the absolute URL.
#[derive(Debug)]
pub struct Endpoint {
    pub method: Method,
    pub url: String,
}

/// An `Endpoint` with its URL as a character sequence.
pub struct EndpointView {
    pub method: Method,
    pub url: Seq<char>,
}

impl View for Endpoint {
    type V = EndpointView;

    open spec fn view(&self) -> EndpointView {
        EndpointView { method: self.method, url: self.url@ }
    }
}

/// A request that is ready to be sent.
#[derive(Debug)]
pub struct HttpRequest {
    pub method: Method,
    pub url: String,
    /// The value of the `Authorization` header.
    pub authorization: String,
    /// Whether the request carries a JSON body.
    pub json_body: bool,
}

/// An `HttpRequest` with its texts as character sequences.
pub struct HttpRequestView {
    pub method: Method,
    pub url: Seq<char>,
    pub authorization: Seq<char>,
    pub json_body: bool,
}

impl View for HttpRequest {
    type V = HttpRequestView;

    open spec fn view(&self) -> HttpRequestView {
        HttpRequestView {
            method: self.method,
            url: self.url@,
            authorization: self.authorization@,
            json_body: self.json_body,
        }
    }
}

/// The call of `method` on what `reference` resolves to against `base`, or
/// the URL error.
pub open spec fn planned(base: Seq<char>, method: Method, reference: Seq<char>) -> Result<
    EndpointView,
    Auth0ErrorView,
> {
    match resolved(base, reference) {
        Ok(url) => Ok(EndpointView { method, url }),
        Err(e) => Err(Auth0ErrorView::Url(e)),
    }
}

/// The request for `endpoint` under the bearer token `token`.
pub open spec fn authorized(endpoint: EndpointView, token: Seq<char>) -> HttpRequestView {
    HttpRequestView {
        method: endpoint.method,
        url: endpoint.url,
        authorization: "Bearer "@ + token,
        json_body: endpoint.method.carries_body(),
    }
}

/// Makes `endpoint` ready to be sent, given how obtaining a token went. With
/// a token the request carries it in its `Authorization` header, and a JSON
/// body where the method has one. Without one the error is handed on as it
/// is and nothing is to be sent.
pub fn authorize(endpoint: Endpoint, token: Result<String, Auth0Error>) -> (r: Result<
    HttpRequest,
    Auth0Error,
>)
    ensures
        match token {
            Ok(t) => match r {
                Ok(request) => request@ == authorized(endpoint@, t@),
                Err(_) => false,
            },
            Err(e) => r == Err::<HttpRequest, Auth0Error>(e),
        },
{
    match token {
        Ok(t) => {
            let json_body = endpoint.method.has_body();
            let authorization = String::from_str("Bearer ").concat(t.as_str());
            Ok(HttpRequest { method: endpoint.method, url: endpoint.url, authorization, json_body })
        },
        Err(e) => Err(e),
    }
}

} // verus!
