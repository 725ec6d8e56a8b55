//! Fixed values of the service: password length, cookie names and token lifetimes.
use vstd::prelude::*;

verus! {

/// Shortest password, in characters, that registration and login accept.
pub const MIN_PASSWORD_LEN: usize = 5;

/// Name of the cookie that carries the access token.
pub const ACCESS_TOKEN_NAME: &'static str = "access_token";

/// Name of the cookie that carries the refresh token.
pub const REFRESH_TOKEN_NAME: &'static str = "refresh_token";

/// Lifetime of an access token, in seconds: twenty minutes.
pub const ACCESS_TOKEN_TTL_SEC: i64 = 60 * 20;

/// Lifetime of a refresh token, in seconds: thirty days.
pub const REFRESH_TOKEN_TTL_SEC: i64 = (60 * 60 * 24) * 30;

} // verus!
