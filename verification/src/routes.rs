//! The answers of the plain endpoints and of the error catchers.

use vstd::prelude::*;
use crate::auth::Auth;
use crate::response::{ApiResponse, is_error_response};
use crate::text::{decimal_text, i64_to_text};

verus! {

/// The welcome answer of the root endpoint.
pub fn index_response() -> (r: ApiResponse<&'static str>)
    ensures
        r.success && r.status == 200 && r.message@ == "Welcome to api"@ && r.error is None,
        r.data matches Some(d) && d@ == "Hello World"@,
{
    ApiResponse::success("Hello World", "Welcome to api")
}

/// The answer of the protected endpoint for an authenticated caller.
pub fn protected_response(auth: &Auth) -> (r: ApiResponse<String>)
    ensures
        r.success && r.status == 200 && r.message@ == "Access granted"@ && r.error is None,
        r.data matches Some(d) && d@ == "this is protected data "@ + decimal_text(
            auth.user_id as int,
        ),
{
    let data = String::from_str("this is protected data ").concat(i64_to_text(auth.user_id).as_str());
    ApiResponse::success(data, "Access granted")
}

/// The answer to a request that fails authentication.
pub fn unauthorized_response() -> (r: ApiResponse<()>)
    ensures
        is_error_response(
            r,
            401,
            "The request requires user authentication."@,
            "Unauthorized"@,
        ),
{
    ApiResponse::unauthorized("The request requires user authentication.")
}

/// The answer to a request whose body cannot be understood.
pub fn malformed_request_response() -> (r: ApiResponse<()>)
    ensures
        is_error_response(r, 422, "The request is malformed."@, "Unprocessable Entity"@),
{
    ApiResponse::malformed_error("The request is malformed.")
}

} // verus!
