//! The envelope of every API answer: a numeric code, an optional message and
//! optional data.

use vstd::prelude::*;
use crate::jwt::decimal;

verus! {

/// HTTP status 200.
pub const STATUS_OK: u16 = 200;

/// HTTP status 401.
pub const STATUS_UNAUTHORIZED: u16 = 401;

/// HTTP status 500.
pub const STATUS_INTERNAL_SERVER_ERROR: u16 = 500;

/// An API answer.
pub struct ApiResponse<T> {
    pub code: i32,
    pub message: Option<String>,
    pub data: Option<T>,
}

impl<T> ApiResponse<T> {
    /// An answer with the given code, message and data.
    pub fn new_any(code: i32, message: String, data: T) -> (r: ApiResponse<T>)
        ensures
            r.code == code,
            r.message == Some(message),
            r.data == Some(data),
    {
        ApiResponse { code, message: Some(message), data: Some(data) }
    }

    /// An answer with an HTTP status code, a message and data.
    pub fn new(code: u16, message: String, data: T) -> (r: ApiResponse<T>)
        ensures
            r.code == code as i32,
            r.message == Some(message),
            r.data == Some(data),
    {
        ApiResponse::new_any(code as i32, message, data)
    }

    /// A successful answer: code 200, no message, the data.
    pub fn ok(data: T) -> (r: ApiResponse<T>)
        ensures
            r.code == STATUS_OK as i32,
            r.message is None,
            r.data == Some(data),
    {
        ApiResponse { code: STATUS_OK as i32, message: None, data: Some(data) }
    }
}

impl ApiResponse<()> {
    /// An answer without data: the code and message given.
    pub fn code_and_message(code: u16, message: &str) -> (r: ApiResponse<()>)
        ensures
            r.code == code as i32,
            r.message matches Some(m) && m@ == message@,
            r.data is None,
    {
        ApiResponse { code: code as i32, message: Some(message.to_owned()), data: None }
    }

    /// An answer without data whose message is the code in decimal.
    pub fn code(code: u16) -> (r: ApiResponse<()>)
        ensures
            r.code == code as i32,
            r.message matches Some(m) && m@ == decimal(code as nat),
            r.data is None,
    {
        ApiResponse {
            code: code as i32,
            message: Some(crate::jwt::decimal_string(code as u64)),
            data: None,
        }
    }

    /// The answer to a request without valid credentials.
    pub fn unauthorized() -> (r: ApiResponse<()>)
        ensures
            r.code == STATUS_UNAUTHORIZED as i32,
            r.message matches Some(m) && m@ == "unauthorized"@,
            r.data is None,
    {
        ApiResponse::code_and_message(STATUS_UNAUTHORIZED, "unauthorized")
    }

    /// The answer to a request that failed unexpectedly.
    pub fn internal_server_error() -> (r: ApiResponse<()>)
        ensures
            r.code == STATUS_INTERNAL_SERVER_ERROR as i32,
            r.message matches Some(m) && m@ == "internal server error"@,
            r.data is None,
    {
        ApiResponse::code_and_message(STATUS_INTERNAL_SERVER_ERROR, "internal server error")
    }
}

/// The HTTP status an answer is sent with: its code when that is a valid
/// status (100 to 999), else none, and the answer goes out with status 200.
pub fn response_status(code: i32) -> (r: Option<u16>)
    ensures
        r is Some <==> 100 <= code < 1000,
        r matches Some(s) ==> s as i32 == code,
{
    if 100 <= code && code < 1000 {
        Some(code as u16)
    } else {
        None
    }
}

} // verus!
