//! The compute side of the backend calls: endpoint addresses and the
//! uniform classification of a reply into a value or an `ApiError`.
//!
//! Sending the requests is I/O and sits in the binary; it hands the HTTP
//! status and the decoded body back in here.
use vstd::prelude::*;
use vstd::string::StringExecFns;

use crate::errors::ApiError;

verus! {

/// A status code in the HTTP success range.
pub open spec fn is_success_status(status: u16) -> bool {
    200 <= status < 300
}

/// Whether an HTTP status code signals success.
pub fn status_is_success(status: u16) -> (r: bool)
    ensures
        r == is_success_status(status),
{
    200 <= status && status < 300
}

/// Classify a backend reply from its HTTP status and decoded body: a
/// non-success status is an `HttpError` with that status; otherwise a body
/// that decoded is the value, and one that did not is a `ParseFailed` with
/// the decoder's reason.
pub fn interpret_response<T>(status: u16, body: Result<T, String>) -> (r: Result<T, ApiError>)
    ensures
        !is_success_status(status) ==> r == Result::<T, ApiError>::Err(
            ApiError::HttpError(status),
        ),
        is_success_status(status) ==> match body {
            Ok(v) => r == Result::<T, ApiError>::Ok(v),
            Err(m) => r == Result::<T, ApiError>::Err(ApiError::ParseFailed(m)),
        },
{
    if status_is_success(status) {
        match body {
            Ok(v) => Ok(v),
            Err(m) => Err(ApiError::ParseFailed(m)),
        }
    } else {
        Err(ApiError::HttpError(status))
    }
}

/// The address of the pantry products endpoint.
pub fn pantry_products_url(base_url: &str) -> (r: String)
    ensures
        r@ == base_url@ + "/api/pantry/products"@,
{
    let mut url = base_url.to_owned();
    url.append("/api/pantry/products");
    url
}

/// The address of the chat endpoint.
pub fn chat_url(base_url: &str) -> (r: String)
    ensures
        r@ == base_url@ + "/api/chat"@,
{
    let mut url = base_url.to_owned();
    url.append("/api/chat");
    url
}

/// The address of the memory-chat endpoint.
pub fn memory_chat_url(base_url: &str) -> (r: String)
    ensures
        r@ == base_url@ + "/api/memory_chat"@,
{
    let mut url = base_url.to_owned();
    url.append("/api/memory_chat");
    url
}

/// The address of the receipt OCR endpoint.
pub fn ocr_url(base_url: &str) -> (r: String)
    ensures
        r@ == base_url@ + "/api/ocr"@,
{
    let mut url = base_url.to_owned();
    url.append("/api/ocr");
    url
}

/// The address of the weather endpoint.
pub fn weather_url(base_url: &str) -> (r: String)
    ensures
        r@ == base_url@ + "/api/weather"@,
{
    let mut url = base_url.to_owned();
    url.append("/api/weather");
    url
}

} // verus!
