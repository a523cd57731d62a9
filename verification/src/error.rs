//! The error type of every operation, and the error body that the server
//! sends with a failed request.

use vstd::prelude::*;

verus! {

/// `reqwest::Error`, carried through untouched: a request that never
/// produced a response.
#[verifier::external_type_specification]
#[verifier::external_body]
pub struct ExTransportError(reqwest::Error);

/// `serde_json::Error`, carried through untouched: a body that is not the
/// JSON that was expected.
#[verifier::external_type_specification]
#[verifier::external_body]
pub struct ExJsonError(serde_json::Error);

/// `url::ParseError`, carried through untouched.
#[verifier::external_type_specification]
#[verifier::external_body]
pub struct ExUrlParseError(url::ParseError);

/// Everything that an operation of this crate can fail with.
#[derive(Debug)]
pub enum Auth0Error {
    /// The request could not be sent, or no response came back.
    Http(reqwest::Error),
    /// A response body could not be decoded.
    Json(serde_json::Error),
    /// A URL could not be built.
    Url(url::ParseError),
    /// The token endpoint refused to issue a token.
    Authentication { message: String },
    /// A resource endpoint answered with an error status other than 429.
    Api { status: u16, message: String, error_code: Option<String> },
    /// A resource endpoint answered 429.
    RateLimited { retry_after: Option<u64> },
    /// The client was configured incompletely.
    Configuration(String),
}

/// An `Auth0Error` with its texts as character sequences.
pub enum Auth0ErrorView {
    Http(reqwest::Error),
    Json(serde_json::Error),
    Url(url::ParseError),
    Authentication { message: Seq<char> },
    Api { status: u16, message: Seq<char>, error_code: Option<Seq<char>> },
    RateLimited { retry_after: Option<u64> },
    Configuration(Seq<char>),
}

/// The characters of an optional text.
pub open spec fn opt_text(text: Option<String>) -> Option<Seq<char>> {
    match text {
        Some(t) => Some(t@),
        None => None,
    }
}

impl View for Auth0Error {
    type V = Auth0ErrorView;

    open spec fn view(&self) -> Auth0ErrorView {
        match *self {
            Auth0Error::Http(e) => Auth0ErrorView::Http(e),
            Auth0Error::Json(e) => Auth0ErrorView::Json(e),
            Auth0Error::Url(e) => Auth0ErrorView::Url(e),
            Auth0Error::Authentication { message } => Auth0ErrorView::Authentication {
                message: message@,
            },
            Auth0Error::Api { status, message, error_code } => Auth0ErrorView::Api {
                status,
                message: message@,
                error_code: opt_text(error_code),
            },
            Auth0Error::RateLimited { retry_after } => Auth0ErrorView::RateLimited { retry_after },
            Auth0Error::Configuration(message) => Auth0ErrorView::Configuration(message@),
        }
    }
}

/// Whether `result` is what `expected` describes: the same value, or an
/// error with that view.
pub open spec fn yields<T>(result: Result<T, Auth0Error>, expected: Result<T, Auth0ErrorView>) -> bool {
    match (result, expected) {
        (Ok(value), Ok(wanted)) => value == wanted,
        (Err(e), Err(wanted)) => e@ == wanted,
        _ => false,
    }
}

/// Whether `result` is what `expected` describes: a value with that view, or
/// an error with that view.
pub open spec fn yields_view<T: View>(
    result: Result<T, Auth0Error>,
    expected: Result<T::V, Auth0ErrorView>,
) -> bool {
    match (result, expected) {
        (Ok(value), Ok(wanted)) => value@ == wanted,
        (Err(e), Err(wanted)) => e@ == wanted,
        _ => false,
    }
}

/// The JSON object that the server sends with an error status, field by
/// field. A field that the object lacks is `None`.
#[derive(Debug)]
pub struct Auth0ApiError {
    /// The field `message`.
    pub message: Option<String>,
    /// The field `error`, which older endpoints send in place of `message`.
    pub error: Option<String>,
    /// The field `error_description`, or `description`.
    pub description: Option<String>,
    /// The field `errorCode`.
    pub error_code: Option<String>,
}

impl Auth0ApiError {
    /// The short message: `message`, or else `error`.
    pub open spec fn summary(self) -> Option<Seq<char>> {
        match self.message {
            Some(m) => Some(m@),
            None => opt_text(self.error),
        }
    }
}

} // verus!
