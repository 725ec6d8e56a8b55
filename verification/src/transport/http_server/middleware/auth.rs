//! Who a request comes from: the access token in its cookie.
use vstd::prelude::*;
use crate::adapter::jwt::{AccessClaims, TYPE_ACCESS};
use crate::status;
use crate::text::{second_field, str_eq};
use crate::transport::http_server::handlers::auth::token_from_cookie;
use crate::transport::models::AuthUser;

verus! {

/// The access token in the request's access cookie (written `name=value`); a request
/// without one is unauthorised (`401`).
pub fn access_token(cookie_str: &str) -> (r: Result<String, u16>)
    ensures
        match second_field(cookie_str@, '=') {
            Some(t) => r matches Ok(s) && s@ == t,
            None => r == Err::<String, u16>(status::UNAUTHORIZED),
        },
{
    match token_from_cookie(cookie_str) {
        Some(t) => Ok(t),
        None => Err(status::UNAUTHORIZED),
    }
}

/// The user that the checked claims name, where they are those of an access token;
/// otherwise the request is unauthorised (`401`).
pub fn auth_user(claims: AccessClaims) -> (r: Result<AuthUser, u16>)
    ensures
        claims.token_type@ == TYPE_ACCESS@ ==> (r matches Ok(u) && u.user_id == claims.sub
            && u.role == claims.role),
        claims.token_type@ != TYPE_ACCESS@ ==> r == Err::<AuthUser, u16>(status::UNAUTHORIZED),
{
    if !str_eq(claims.token_type.as_str(), TYPE_ACCESS) {
        return Err(status::UNAUTHORIZED);
    }
    Ok(AuthUser { user_id: claims.sub, role: claims.role })
}

} // verus!
