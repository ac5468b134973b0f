//! The JSON envelope every endpoint answers with.

use vstd::prelude::*;

verus! {

/// The body of every answer: a success flag, the HTTP status, a message,
/// and either an error label or the payload.
pub struct ApiResponse<T> {
    pub success: bool,
    pub status: u16,
    pub message: String,
    pub error: Option<String>,
    pub data: Option<T>,
}

/// `r` is a successful answer with this status, message and payload.
pub open spec fn is_success_response<T>(
    r: ApiResponse<T>,
    status: u16,
    message: Seq<char>,
    data: T,
) -> bool {
    &&& r.success
    &&& r.status == status
    &&& r.message@ == message
    &&& r.error is None
    &&& r.data == Some(data)
}

/// `r` is a failed answer with this status, message and error label, and no payload.
pub open spec fn is_error_response<T>(
    r: ApiResponse<T>,
    status: u16,
    message: Seq<char>,
    error: Seq<char>,
) -> bool {
    &&& !r.success
    &&& r.status == status
    &&& r.message@ == message
    &&& r.error matches Some(e) && e@ == error
    &&& r.data is None
}

impl<T> ApiResponse<T> {
    /// A 200 answer carrying `data`.
    pub fn success(data: T, message: &str) -> (r: Self)
        ensures
            is_success_response(r, 200, message@, data),
    {
        ApiResponse {
            success: true,
            status: 200,
            message: String::from_str(message),
            error: None,
            data: Some(data),
        }
    }

    /// A 201 answer carrying the created `data`.
    pub fn created(data: T, message: &str) -> (r: Self)
        ensures
            is_success_response(r, 201, message@, data),
    {
        ApiResponse {
            success: true,
            status: 201,
            message: String::from_str(message),
            error: None,
            data: Some(data),
        }
    }

    /// A failed answer with the given status and error label.
    pub fn error(status: u16, message: &str, error: &str) -> (r: Self)
        ensures
            is_error_response(r, status, message@, error@),
    {
        ApiResponse {
            success: false,
            status,
            message: String::from_str(message),
            error: Some(String::from_str(error)),
            data: None,
        }
    }

    /// A 404 answer.
    pub fn not_found(message: &str) -> (r: Self)
        ensures
            is_error_response(r, 404, message@, "Not Found"@),
    {
        Self::error(404, message, "Not Found")
    }

    /// A 401 answer.
    pub fn unauthorized(message: &str) -> (r: Self)
        ensures
            is_error_response(r, 401, message@, "Unauthorized"@),
    {
        Self::error(401, message, "Unauthorized")
    }

    /// A 400 answer.
    pub fn bad_request(message: &str) -> (r: Self)
        ensures
            is_error_response(r, 400, message@, "Bad Request"@),
    {
        Self::error(400, message, "Bad Request")
    }

    /// A 422 answer, for a body that could not be understood.
    pub fn malformed_error(message: &str) -> (r: Self)
        ensures
            is_error_response(r, 422, message@, "Unprocessable Entity"@),
    {
        Self::error(422, message, "Unprocessable Entity")
    }

    /// A 500 answer.
    pub fn internal_error(message: &str) -> (r: Self)
        ensures
            is_error_response(r, 500, message@, "Internal Server Error"@),
    {
        Self::error(500, message, "Internal Server Error")
    }
}

} // verus!
