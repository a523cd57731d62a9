//! What a response means: success with its value, a rate limit, or an API
//! error. A response is classified once; nothing here asks for a second
//! request.

use vstd::prelude::*;
use vstd::string::*;
use crate::client::ManagementClient;
use crate::error::{opt_text, yields, Auth0ApiError, Auth0Error, Auth0ErrorView};
use crate::text::{parse_u64, parse_u64_spec};

verus! {

/// A response as the transport hands it over: the status, the
/// `retry-after` header, and the body decoded both ways.
#[derive(Debug)]
pub struct HttpReply<T> {
    /// The status code.
    pub status: u16,
    /// The value of the `retry-after` header, where the response has one
    /// that is text.
    pub retry_after: Option<String>,
    /// The body decoded as the value that a success carries.
    pub payload: Result<T, serde_json::Error>,
    /// The body decoded as an error object, where it is one.
    pub error: Option<Auth0ApiError>,
}

/// Whether `status` is in the success class, 200 to 299.
pub open spec fn status_is_success(status: u16) -> bool {
    200 <= status && status <= 299
}

/// The seconds that a `retry-after` header names: its value read as an
/// unsigned decimal number, where it is one.
pub open spec fn retry_after_seconds(header: Option<String>) -> Option<u64> {
    match header {
        Some(value) => parse_u64_spec(value@),
        None => None,
    }
}

/// The message of an API error: the description where the body has one,
/// else its short message.
pub open spec fn api_message(body: Auth0ApiError) -> Seq<char>
    recommends
        body.summary() is Some,
{
    match body.description {
        Some(d) => d@,
        None => body.summary()->0,
    }
}

/// The error that a response with an error status other than 429 stands
/// for. A body that is no error object, or one without a short message,
/// gives the message "Unknown error" and no error code.
pub open spec fn api_error(status: u16, body: Option<Auth0ApiError>) -> Auth0ErrorView {
    match body {
        Some(b) => if b.summary() is Some {
            Auth0ErrorView::Api {
                status,
                message: api_message(b),
                error_code: opt_text(b.error_code),
            }
        } else {
            Auth0ErrorView::Api { status, message: "Unknown error"@, error_code: None }
        },
        None => Auth0ErrorView::Api { status, message: "Unknown error"@, error_code: None },
    }
}

/// The error that a response with an error status stands for.
pub open spec fn error_of(
    status: u16,
    retry_after: Option<String>,
    body: Option<Auth0ApiError>,
) -> Auth0ErrorView {
    if status == 429 {
        Auth0ErrorView::RateLimited { retry_after: retry_after_seconds(retry_after) }
    } else {
        api_error(status, body)
    }
}

/// The outcome of a request that answers with a value: on a success status
/// the decoded value, or the decoding error; on any other status the error
/// that the status, header and body stand for.
pub open spec fn response_outcome<T>(reply: HttpReply<T>) -> Result<T, Auth0ErrorView> {
    if status_is_success(reply.status) {
        match reply.payload {
            Ok(value) => Ok(value),
            Err(e) => Err(Auth0ErrorView::Json(e)),
        }
    } else {
        Err(error_of(reply.status, reply.retry_after, reply.error))
    }
}

/// The outcome of a request that answers with nothing: a success status is
/// success whatever the body holds.
pub open spec fn empty_response_outcome<T>(reply: HttpReply<T>) -> Result<(), Auth0ErrorView> {
    if status_is_success(reply.status) {
        Ok(())
    } else {
        Err(error_of(reply.status, reply.retry_after, reply.error))
    }
}

/// A 429 is handed to the caller as a rate limit, with the seconds of its
/// `retry-after` header, whatever else the response holds: the outcome is
/// final, and nothing in it asks for the request to be made again.
pub proof fn lemma_rate_limit_is_surfaced<T>(reply: HttpReply<T>)
    requires
        reply.status == 429,
    ensures
        response_outcome(reply) == Err::<T, Auth0ErrorView>(
            Auth0ErrorView::RateLimited { retry_after: retry_after_seconds(reply.retry_after) },
        ),
        empty_response_outcome(reply) == Err::<(), Auth0ErrorView>(
            Auth0ErrorView::RateLimited { retry_after: retry_after_seconds(reply.retry_after) },
        ),
{
}

/// Tells whether `status` is in the success class.
pub fn is_success(status: u16) -> (r: bool)
    ensures
        r == status_is_success(status),
{
    200 <= status && status <= 299
}

/// Reads the seconds that a `retry-after` header names.
pub fn parse_retry_after(header: &Option<String>) -> (r: Option<u64>)
    ensures
        r == retry_after_seconds(*header),
{
    match header {
        Some(value) => parse_u64(value.as_str()),
        None => None,
    }
}

impl ManagementClient {
    /// Classifies a response with an error status: 429 is a rate limit with
    /// the seconds of its `retry-after` header, any other status an API
    /// error with the message and code of its body.
    pub fn handle_error(
        status: u16,
        retry_after: Option<String>,
        body: Option<Auth0ApiError>,
    ) -> (e: Auth0Error)
        ensures
            e@ == error_of(status, retry_after, body),
    {
        if status == 429 {
            return Auth0Error::RateLimited { retry_after: parse_retry_after(&retry_after) };
        }
        match body {
            Some(Auth0ApiError { message, error, description, error_code }) => {
                let summary = match message {
                    Some(m) => Some(m),
                    None => error,
                };
                match summary {
                    Some(short) => {
                        let message = match description {
                            Some(d) => d,
                            None => short,
                        };
                        Auth0Error::Api { status, message, error_code }
                    },
                    None => Auth0Error::Api {
                        status,
                        message: String::from_str("Unknown error"),
                        error_code: None,
                    },
                }
            },
            None => Auth0Error::Api {
                status,
                message: String::from_str("Unknown error"),
                error_code: None,
            },
        }
    }

    /// The outcome of a request that answers with a value: on a success
    /// status the decoded value, or the decoding error; on any other status
    /// the error that `handle_error` gives.
    pub fn handle_response<T>(reply: HttpReply<T>) -> (r: Result<T, Auth0Error>)
        ensures
            yields(r, response_outcome(reply)),
    {
        let HttpReply { status, retry_after, payload, error } = reply;
        if is_success(status) {
            match payload {
                Ok(value) => Ok(value),
                Err(e) => Err(Auth0Error::Json(e)),
            }
        } else {
            Err(Self::handle_error(status, retry_after, error))
        }
    }

    /// The outcome of a request that answers with nothing: a success status
    /// is success whatever the body holds; any other status is the error
    /// that `handle_error` gives.
    pub fn handle_empty_response<T>(reply: HttpReply<T>) -> (r: Result<(), Auth0Error>)
        ensures
            yields(r, empty_response_outcome(reply)),
    {
        let HttpReply { status, retry_after, payload, error } = reply;
        if is_success(status) {
            Ok(())
        } else {
            Err(Self::handle_error(status, retry_after, error))
        }
    }
}

} // verus!
