//! The error taxonomy and its mapping to HTTP status codes.

use vstd::prelude::*;
use vstd::string::StringExecFns;

verus! {

/// Why a token was not accepted. Every cause (bad signature, malformed
/// text, expiry) collapses into the one variant, so that a caller learns
/// nothing about which check failed.
#[derive(Debug, Clone, Copy, PartialEq, Eq, Structural)]
pub enum AuthError {
    InvalidToken,
}

impl AuthError {
    /// The text shown for this error.
    pub fn message(&self) -> (text: String)
        ensures
            text@ == "invalid token"@,
    {
        String::from_str("invalid token")
    }
}

/// Failures of the application, by kind.
#[derive(Debug, Clone, PartialEq, Eq)]
pub enum AppError {
    NotFound,
    Conflict,
    Unauthorized,
    Forbidden,
    BadRequest(String),
    Internal,
}

impl AppError {
    /// The HTTP status code that answers this error.
    pub open spec fn status_spec(self) -> u16 {
        match self {
            AppError::NotFound => 404,
            AppError::Conflict => 409,
            AppError::Unauthorized => 401,
            AppError::Forbidden => 403,
            AppError::BadRequest(_) => 400,
            AppError::Internal => 500,
        }
    }

    /// The text shown for this error.
    pub open spec fn message_spec(self) -> Seq<char> {
        match self {
            AppError::NotFound => "not found"@,
            AppError::Conflict => "conflict"@,
            AppError::Unauthorized => "unauthorized"@,
            AppError::Forbidden => "forbidden"@,
            AppError::BadRequest(detail) => "bad request: "@ + detail@,
            AppError::Internal => "internal error"@,
        }
    }

    pub fn status_code(&self) -> (code: u16)
        ensures
            code == self.status_spec(),
    {
        match self {
            AppError::NotFound => 404,
            AppError::Conflict => 409,
            AppError::Unauthorized => 401,
            AppError::Forbidden => 403,
            AppError::BadRequest(_) => 400,
            AppError::Internal => 500,
        }
    }

    pub fn message(&self) -> (text: String)
        ensures
            text@ == self.message_spec(),
    {
        match self {
            AppError::NotFound => String::from_str("not found"),
            AppError::Conflict => String::from_str("conflict"),
            AppError::Unauthorized => String::from_str("unauthorized"),
            AppError::Forbidden => String::from_str("forbidden"),
            AppError::BadRequest(detail) => String::from_str("bad request: ").concat(
                detail.as_str(),
            ),
            AppError::Internal => String::from_str("internal error"),
        }
    }
}

/// What a request handler can fail with: an application error, a failure
/// of the credential store, or a failed authentication check.
#[derive(Debug, Clone, PartialEq, Eq)]
pub enum HttpApiError {
    App(AppError),
    Db,
    Auth,
}

impl HttpApiError {
    /// Application errors answer with their own status, a failed
    /// authentication check with 401, and a store failure with 500: its
    /// detail never reaches the client.
    pub open spec fn status_spec(self) -> u16 {
        match self {
            HttpApiError::App(e) => e.status_spec(),
            HttpApiError::Db => 500,
            HttpApiError::Auth => 401,
        }
    }

    /// The detail sent in the response body: only a bad request carries
    /// one.
    pub open spec fn detail_spec(self) -> Option<Seq<char>> {
        match self {
            HttpApiError::App(AppError::BadRequest(detail)) => Some(detail@),
            _ => None,
        }
    }

    pub open spec fn message_spec(self) -> Seq<char> {
        match self {
            HttpApiError::App(e) => e.message_spec(),
            HttpApiError::Db => "db error"@,
            HttpApiError::Auth => "auth error"@,
        }
    }

    pub fn status_code(&self) -> (code: u16)
        ensures
            code == self.status_spec(),
    {
        match self {
            HttpApiError::App(e) => e.status_code(),
            HttpApiError::Db => 500,
            HttpApiError::Auth => 401,
        }
    }

    pub fn detail(&self) -> (text: Option<String>)
        ensures
            match text {
                Some(t) => self.detail_spec() == Some(t@),
                None => self.detail_spec() is None,
            },
    {
        match self {
            HttpApiError::App(AppError::BadRequest(detail)) => Some(detail.clone()),
            _ => None,
        }
    }

    pub fn message(&self) -> (text: String)
        ensures
            text@ == self.message_spec(),
    {
        match self {
            HttpApiError::App(e) => e.message(),
            HttpApiError::Db => String::from_str("db error"),
            HttpApiError::Auth => String::from_str("auth error"),
        }
    }
}

} // verus!
