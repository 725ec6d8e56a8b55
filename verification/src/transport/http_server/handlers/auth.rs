//! The cookies that carry the tokens.
use vstd::prelude::*;
use vstd::string::*;
use crate::consts;
use crate::status;
use crate::usecase::UseCaseError;
use super::{error_answer, ErrorResponse, HandlerError};
use crate::text::{append_i64, decimal_int, second_field, split_second, opt_view};

verus! {

/// The `Set-Cookie` value of an access token: sent to `/api` only, living as long as the
/// token, and sent along from other sites only on links (`SameSite=Lax`).
pub open spec fn access_cookie(token: Seq<char>) -> Seq<char> {
    consts::ACCESS_TOKEN_NAME@ + "="@ + token + "; HttpOnly; Secure; SameSite=Lax; Path=/api; Max-Age="@
        + decimal_int(consts::ACCESS_TOKEN_TTL_SEC as int)
}

/// The `Set-Cookie` value of a refresh token: sent only to the refresh endpoint, only from
/// this site (`SameSite=Strict`), living as long as the token.
pub open spec fn refresh_cookie(token: Seq<char>) -> Seq<char> {
    consts::REFRESH_TOKEN_NAME@ + "="@ + token
        + "; HttpOnly; Secure; SameSite=Strict; Path=/api/v1/refresh_tokens; Max-Age="@
        + decimal_int(consts::REFRESH_TOKEN_TTL_SEC as int)
}

/// The `Set-Cookie` value of an access token.
pub fn new_cookie_for_access(token: String) -> (r: String)
    ensures
        r@ == access_cookie(token@),
{
    let mut r = String::from_str(consts::ACCESS_TOKEN_NAME);
    r.append("=");
    r.append(token.as_str());
    r.append("; HttpOnly; Secure; SameSite=Lax; Path=/api; Max-Age=");
    append_i64(&mut r, consts::ACCESS_TOKEN_TTL_SEC);
    r
}

/// The `Set-Cookie` value of a refresh token.
pub fn new_cookie_for_refresh(token: String) -> (r: String)
    ensures
        r@ == refresh_cookie(token@),
{
    let mut r = String::from_str(consts::REFRESH_TOKEN_NAME);
    r.append("=");
    r.append(token.as_str());
    r.append("; HttpOnly; Secure; SameSite=Strict; Path=/api/v1/refresh_tokens; Max-Age=");
    append_i64(&mut r, consts::REFRESH_TOKEN_TTL_SEC);
    r
}

/// The answer to a login.
pub enum LoginAnswer {
    /// A status (`204`) that sets the two cookies, the access token's first.
    Tokens { status_code: u16, access_cookie: String, refresh_cookie: String },
    /// A redirect to this location: the user is unknown and is sent to register.
    Redirect(String),
    /// Any other failure, answered as a `HandlerError` reported at the source.
    Failed(ErrorResponse),
}

/// What a login answers for its outcome: issued tokens set both cookies with no content
/// (`204`); an unknown user is redirected to `/`; any other failure is answered as
/// `HandlerError::into_response` answers it.
pub fn login_answer(outcome: Result<(String, String), UseCaseError>, source: &'static str) -> (r: LoginAnswer)
    ensures
        match outcome {
            Ok((a, b)) => r matches LoginAnswer::Tokens { status_code: s, access_cookie: x, refresh_cookie: y }
                && s == status::NO_CONTENT && x@ == access_cookie(a@) && y@ == refresh_cookie(b@),
            Err(e) => if e is UserNotExists {
                r matches LoginAnswer::Redirect(l) && l@ == "/"@
            } else {
                r matches LoginAnswer::Failed(resp) && error_answer(resp, e@, source@)
            },
        },
{
    match outcome {
        Ok((access, refresh)) => LoginAnswer::Tokens {
            status_code: status::NO_CONTENT,
            access_cookie: new_cookie_for_access(access),
            refresh_cookie: new_cookie_for_refresh(refresh),
        },
        Err(UseCaseError::UserNotExists) => LoginAnswer::Redirect(String::from_str("/")),
        Err(e) => LoginAnswer::Failed(HandlerError::new(e, source).into_response()),
    }
}

/// The token inside a request cookie written as `name=value`: the text after the first
/// `=`, up to the next one. `None` (the request is unauthorised) where there is no `=`.
pub fn token_from_cookie(cookie_str: &str) -> (r: Option<String>)
    ensures
        opt_view(r) == second_field(cookie_str@, '='),
{
    split_second(cookie_str, '=')
}

/// A cookie written as `name=token` gives back its token, where neither holds `=` (as
/// the names and the tokens of the service do not).
pub proof fn law_cookie_token_roundtrip(name: Seq<char>, token: Seq<char>)
    requires
        !name.contains('='),
        !token.contains('='),
    ensures
        second_field(name + "="@ + token, '=') == Some(token),
{
    reveal_strlit("=");
    assert("="@ =~= seq!['=']);
    crate::text::lemma_second_field_of_pair(name, token);
}

} // verus!
