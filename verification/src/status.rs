//! HTTP status codes that the service answers with.
use vstd::prelude::*;

verus! {

pub const OK: u16 = 200;
pub const CREATED: u16 = 201;
pub const NO_CONTENT: u16 = 204;
pub const BAD_REQUEST: u16 = 400;
pub const UNAUTHORIZED: u16 = 401;
pub const FORBIDDEN: u16 = 403;
pub const NOT_FOUND: u16 = 404;
pub const REQUEST_TIMEOUT: u16 = 408;
pub const INTERNAL_SERVER_ERROR: u16 = 500;

/// What `http::StatusCode`'s `Display` writes for a code: the number, a space and the
/// canonical reason (such as `404 Not Found`).
pub uninterp spec fn status_code_text(code: u16) -> Seq<char>;

/// `Display` of `http::StatusCode::from_u16(code)`, for a code in `100..1000`, the range
/// that `from_u16` accepts.
#[verifier::external_body]
pub(crate) fn status_code_display(code: u16) -> (r: String)
    requires
        100 <= code < 1000,
    ensures
        r@ == status_code_text(code),
{
    match http::StatusCode::from_u16(code) {
        Ok(s) => s.to_string(),
        Err(e) => e.to_string(),
    }
}

} // verus!
