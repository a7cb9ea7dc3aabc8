//! The closed error enums the client reports: backend call failures and
//! application-level failures around them.
use vstd::prelude::*;
use vstd::string::StringExecFns;

use crate::dates::dec_digits;

verus! {

/// API client errors.
#[derive(Debug, PartialEq, Eq)]
pub enum ApiError {
    /// The request never produced a response.
    RequestFailed(String),
    /// The response arrived but its body could not be decoded.
    ParseFailed(String),
    /// The response carried a non-success HTTP status.
    HttpError(u16),
    /// The request timed out.
    Timeout,
    /// The backend rejected the caller's credentials.
    AuthenticationFailed,
    /// The request itself was malformed.
    InvalidRequest(String),
}

/// The text an `ApiError` renders to.
pub open spec fn api_error_text(e: ApiError) -> Seq<char> {
    match e {
        ApiError::RequestFailed(s) => "Network request failed: "@ + s@,
        ApiError::ParseFailed(s) => "Failed to parse response: "@ + s@,
        ApiError::HttpError(c) => "HTTP error: "@ + dec_digits(c as int),
        ApiError::Timeout => "Request timeout"@,
        ApiError::AuthenticationFailed => "Authentication failed"@,
        ApiError::InvalidRequest(s) => "Invalid request: "@ + s@,
    }
}

impl Clone for ApiError {
    fn clone(&self) -> (r: Self)
        ensures
            r == *self,
    {
        match self {
            ApiError::RequestFailed(s) => ApiError::RequestFailed(s.clone()),
            ApiError::ParseFailed(s) => ApiError::ParseFailed(s.clone()),
            ApiError::HttpError(c) => ApiError::HttpError(*c),
            ApiError::Timeout => ApiError::Timeout,
            ApiError::AuthenticationFailed => ApiError::AuthenticationFailed,
            ApiError::InvalidRequest(s) => ApiError::InvalidRequest(s.clone()),
        }
    }
}

impl ApiError {
    /// Render the error as text.
    pub fn message(&self) -> (r: String)
        ensures
            r@ == api_error_text(*self),
    {
        match self {
            ApiError::RequestFailed(s) => {
                let mut out = "Network request failed: ".to_owned();
                out.append(s.as_str());
                out
            },
            ApiError::ParseFailed(s) => {
                let mut out = "Failed to parse response: ".to_owned();
                out.append(s.as_str());
                out
            },
            ApiError::HttpError(c) => {
                let mut out = "HTTP error: ".to_owned();
                crate::dates::append_decimal(&mut out, *c as u32);
                out
            },
            ApiError::Timeout => "Request timeout".to_owned(),
            ApiError::AuthenticationFailed => "Authentication failed".to_owned(),
            ApiError::InvalidRequest(s) => {
                let mut out = "Invalid request: ".to_owned();
                out.append(s.as_str());
                out
            },
        }
    }
}

/// Application errors.
#[derive(Debug, PartialEq, Eq)]
pub enum AppError {
    /// A file or stream operation failed; the text is the reported reason.
    IoError(String),
    /// A backend call failed.
    ApiError(ApiError),
    /// The configuration could not be loaded or stored.
    ConfigError(String),
    /// A value could not be parsed.
    ParseError(String),
    /// Anything else.
    Unknown(String),
}

/// The text an `AppError` renders to.
pub open spec fn app_error_text(e: AppError) -> Seq<char> {
    match e {
        AppError::IoError(s) => "IO error: "@ + s@,
        AppError::ApiError(inner) => "API error: "@ + api_error_text(inner),
        AppError::ConfigError(s) => "Configuration error: "@ + s@,
        AppError::ParseError(s) => "Parsing error: "@ + s@,
        AppError::Unknown(s) => "Unknown error: "@ + s@,
    }
}

impl AppError {
    /// Render the error as text.
    pub fn message(&self) -> (r: String)
        ensures
            r@ == app_error_text(*self),
    {
        match self {
            AppError::IoError(s) => {
                let mut out = "IO error: ".to_owned();
                out.append(s.as_str());
                out
            },
            AppError::ApiError(inner) => {
                let mut out = "API error: ".to_owned();
                let tail = inner.message();
                out.append(tail.as_str());
                out
            },
            AppError::ConfigError(s) => {
                let mut out = "Configuration error: ".to_owned();
                out.append(s.as_str());
                out
            },
            AppError::ParseError(s) => {
                let mut out = "Parsing error: ".to_owned();
                out.append(s.as_str());
                out
            },
            AppError::Unknown(s) => {
                let mut out = "Unknown error: ".to_owned();
                out.append(s.as_str());
                out
            },
        }
    }
}

impl From<ApiError> for AppError {
    fn from(e: ApiError) -> (r: Self) {
        AppError::ApiError(e)
    }
}

impl vstd::std_specs::convert::FromSpecImpl<ApiError> for AppError {
    open spec fn obeys_from_spec() -> bool {
        true
    }

    open spec fn from_spec(e: ApiError) -> Self {
        AppError::ApiError(e)
    }
}

/// Result type for application operations.
pub type AppResult<T> = Result<T, AppError>;

} // verus!
