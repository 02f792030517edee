//! The error type shared by every handler, and how each error is answered.

use vstd::prelude::*;
use crate::text::{concat, owned};

verus! {

/// An error raised while serving a request. Each variant maps to one HTTP
/// status; `OAuth` carries the identity-endpoint error shape.
pub enum AppError {
    /// 401 Unauthorized
    Unauthorized(String),
    /// 400 Bad Request
    BadRequest(String),
    /// 404 Not Found
    NotFound(String),
    /// 403 Forbidden
    Forbidden(String),
    /// 409 Conflict
    Conflict(String),
    /// 413 Payload Too Large
    PayloadTooLarge(String),
    /// 429 Too Many Requests
    TooManyRequests,
    /// 500 Internal Server Error
    Internal(String),
    /// OAuth-style error for identity endpoints
    OAuth {
        error: String,
        error_description: String,
        status: u16,
        two_factor_providers: Option<Vec<i32>>,
    },
}

impl AppError {
    /// The HTTP status an error is answered with.
    pub open spec fn spec_status(&self) -> u16 {
        match self {
            AppError::Unauthorized(_) => 401,
            AppError::BadRequest(_) => 400,
            AppError::NotFound(_) => 404,
            AppError::Forbidden(_) => 403,
            AppError::Conflict(_) => 409,
            AppError::PayloadTooLarge(_) => 413,
            AppError::TooManyRequests => 429,
            AppError::Internal(_) => 500,
            AppError::OAuth { status, .. } => *status,
        }
    }

    /// The message shown to the client in the error body. Internal details
    /// never leave the server.
    pub open spec fn spec_public_message(&self) -> Seq<char> {
        match self {
            AppError::Unauthorized(m) => m@,
            AppError::BadRequest(m) => m@,
            AppError::NotFound(m) => m@,
            AppError::Forbidden(m) => m@,
            AppError::Conflict(m) => m@,
            AppError::PayloadTooLarge(m) => m@,
            AppError::TooManyRequests => "Too many requests."@,
            AppError::Internal(_) => "An internal error occurred."@,
            AppError::OAuth { error_description, .. } => error_description@,
        }
    }

    pub fn status_code(&self) -> (s: u16)
        ensures
            s == self.spec_status(),
    {
        match self {
            AppError::Unauthorized(_) => 401,
            AppError::BadRequest(_) => 400,
            AppError::NotFound(_) => 404,
            AppError::Forbidden(_) => 403,
            AppError::Conflict(_) => 409,
            AppError::PayloadTooLarge(_) => 413,
            AppError::TooManyRequests => 429,
            AppError::Internal(_) => 500,
            AppError::OAuth { status, .. } => *status,
        }
    }

    pub fn public_message(&self) -> (m: String)
        ensures
            m@ == self.spec_public_message(),
    {
        match self {
            AppError::Unauthorized(m) => m.clone(),
            AppError::BadRequest(m) => m.clone(),
            AppError::NotFound(m) => m.clone(),
            AppError::Forbidden(m) => m.clone(),
            AppError::Conflict(m) => m.clone(),
            AppError::PayloadTooLarge(m) => m.clone(),
            AppError::TooManyRequests => owned("Too many requests."),
            AppError::Internal(_) => owned("An internal error occurred."),
            AppError::OAuth { error_description, .. } => error_description.clone(),
        }
    }
}

impl AppError {
    /// The one-line description used in logs (the `Display` text).
    pub open spec fn spec_describe(&self) -> Seq<char> {
        match self {
            AppError::Unauthorized(m) => "Unauthorized: "@ + m@,
            AppError::BadRequest(m) => "Bad request: "@ + m@,
            AppError::NotFound(m) => "Not found: "@ + m@,
            AppError::Forbidden(m) => "Forbidden: "@ + m@,
            AppError::Conflict(m) => "Conflict: "@ + m@,
            AppError::PayloadTooLarge(m) => "Payload too large: "@ + m@,
            AppError::TooManyRequests => "Too many requests"@,
            AppError::Internal(m) => "Internal error: "@ + m@,
            AppError::OAuth { error, error_description, .. } => "OAuth error: "@ + error@ + ": "@
                + error_description@,
        }
    }

    pub fn describe(&self) -> (r: String)
        ensures
            r@ == self.spec_describe(),
    {
        match self {
            AppError::Unauthorized(m) => concat("Unauthorized: ", m.as_str()),
            AppError::BadRequest(m) => concat("Bad request: ", m.as_str()),
            AppError::NotFound(m) => concat("Not found: ", m.as_str()),
            AppError::Forbidden(m) => concat("Forbidden: ", m.as_str()),
            AppError::Conflict(m) => concat("Conflict: ", m.as_str()),
            AppError::PayloadTooLarge(m) => concat("Payload too large: ", m.as_str()),
            AppError::TooManyRequests => owned("Too many requests"),
            AppError::Internal(m) => concat("Internal error: ", m.as_str()),
            AppError::OAuth { error, error_description, .. } => {
                let mut r = concat("OAuth error: ", error.as_str());
                r.append(": ");
                r.append(error_description.as_str());
                r
            },
        }
    }
}

/// Bitwarden's error model, as every error body carries it.
/// `validation_errors` holds JSON text; none of these errors has any.
pub struct ErrorModel {
    pub message: String,
    pub validation_errors: Option<String>,
    pub exception_message: Option<String>,
    pub exception_stack_trace: Option<String>,
    pub inner_exception_message: Option<String>,
    pub object: String,
}

/// The body of an error answered by the API endpoints.
pub struct ApiErrorResponse {
    pub error_model: ErrorModel,
    pub object: String,
}

/// The body of an error answered by the identity endpoints.
pub struct OAuthErrorResponse {
    pub error: String,
    pub error_description: String,
    pub error_model: ErrorModel,
    pub two_factor_providers: Option<Vec<i32>>,
    pub object: String,
}

/// An error body, in the shape its endpoint answers with.
pub enum ErrorBody {
    Api(ApiErrorResponse),
    OAuth(OAuthErrorResponse),
}

/// An error model carrying only a message.
pub open spec fn is_message_model(m: ErrorModel, message: Seq<char>) -> bool {
    &&& m.message@ == message
    &&& m.validation_errors is None
    &&& m.exception_message is None
    &&& m.exception_stack_trace is None
    &&& m.inner_exception_message is None
    &&& m.object@ == "error"@
}

fn message_model(message: String) -> (r: ErrorModel)
    ensures
        is_message_model(r, message@),
{
    ErrorModel {
        message,
        validation_errors: None,
        exception_message: None,
        exception_stack_trace: None,
        inner_exception_message: None,
        object: owned("error"),
    }
}

impl AppError {
    /// The body an error is answered with (its status is `status_code`):
    /// OAuth errors in the OAuth shape with their providers, every other
    /// error as an error model holding its public message.
    pub fn error_body(&self) -> (r: ErrorBody)
        ensures
            match self {
                AppError::OAuth { error, error_description, two_factor_providers, .. } => match r {
                    ErrorBody::OAuth(b) => {
                        &&& b.error@ == error@
                        &&& b.error_description@ == error_description@
                        &&& is_message_model(b.error_model, error_description@)
                        &&& match (b.two_factor_providers, two_factor_providers) {
                            (Some(x), Some(y)) => x@ == y@,
                            (None, None) => true,
                            _ => false,
                        }
                        &&& b.object@ == "error"@
                    },
                    _ => false,
                },
                _ => match r {
                    ErrorBody::Api(b) => is_message_model(b.error_model, self.spec_public_message())
                        && b.object@ == "error"@,
                    _ => false,
                },
            },
    {
        match self {
            AppError::OAuth { error, error_description, two_factor_providers, .. } => {
                let providers = match two_factor_providers {
                    Some(p) => Some(p.clone()),
                    None => None,
                };
                proof {
                    if two_factor_providers is Some {
                        assert(providers.unwrap()@ == two_factor_providers.unwrap()@);
                    }
                }
                ErrorBody::OAuth(
                    OAuthErrorResponse {
                        error: error.clone(),
                        error_description: error_description.clone(),
                        error_model: message_model(error_description.clone()),
                        two_factor_providers: providers,
                        object: owned("error"),
                    },
                )
            },
            _ => ErrorBody::Api(
                ApiErrorResponse {
                    error_model: message_model(self.public_message()),
                    object: owned("error"),
                },
            ),
        }
    }
}

} // verus!
