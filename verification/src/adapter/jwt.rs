//! Access and refresh tokens: what they claim, and how a failed check is reported.
//!
//! Signing and checking the tokens (`jsonwebtoken::encode` and `decode`) serialises these
//! claims with serde; that is done around this library, on copies of these types.
use vstd::prelude::*;
use vstd::string::*;
use crate::types::Uuid;

verus! {

/// `token_type` of an access token.
pub const TYPE_ACCESS: &'static str = "access";

/// `token_type` of a refresh token.
pub const TYPE_REFRESH: &'static str = "refresh";

/// Why a token was refused: it expired, or another failure with its message.
#[derive(Debug)]
pub enum JWTError {
    ExpiredToken,
    Common(String),
}

impl JWTError {
    /// The message of the error.
    pub open spec fn text(&self) -> Seq<char> {
        match self {
            JWTError::ExpiredToken => "token expired"@,
            JWTError::Common(s) => s@,
        }
    }

    /// The message of the error.
    pub fn to_string(&self) -> (r: String)
        ensures
            r@ == self.text(),
    {
        match self {
            JWTError::ExpiredToken => String::from_str("token expired"),
            JWTError::Common(s) => s.clone(),
        }
    }

    /// The error for a failed check: `ExpiredToken` where the token's expiry passed,
    /// otherwise the failure's message.
    pub fn from_failure(expired: bool, message: String) -> (r: JWTError)
        ensures
            expired ==> r is ExpiredToken,
            !expired ==> (r matches JWTError::Common(m) && m@ == message@),
    {
        if expired {
            JWTError::ExpiredToken
        } else {
            JWTError::Common(message)
        }
    }
}

/// What an access token claims: whose it is, when it expires and was issued (UNIX
/// seconds), that it is an access token, and the user's role.
#[derive(Debug)]
pub struct AccessClaims {
    pub sub: Uuid,
    pub exp: usize,
    pub iat: usize,
    pub token_type: String,
    pub role: Option<String>,
}

/// What a refresh token claims: whose it is, when it expires and was issued, and that it
/// is a refresh token.
#[derive(Debug)]
pub struct RefreshClaims {
    pub sub: Uuid,
    pub exp: usize,
    pub iat: usize,
    pub token_type: String,
}

/// The key that signs the tokens and how long each kind lives, in seconds.
pub struct Jwt {
    private_key_bytes: Vec<u8>,
    access_expire_secs: i64,
    refresh_expire_secs: i64,
}

impl Clone for Jwt {
    fn clone(&self) -> (r: Self)
        ensures
            r.spec_key() == self.spec_key(),
            r.spec_access_expire_secs() == self.spec_access_expire_secs(),
            r.spec_refresh_expire_secs() == self.spec_refresh_expire_secs(),
    {
        Jwt {
            private_key_bytes: self.private_key_bytes.clone(),
            access_expire_secs: self.access_expire_secs,
            refresh_expire_secs: self.refresh_expire_secs,
        }
    }
}

impl Jwt {
    pub closed spec fn spec_key(&self) -> Seq<u8> {
        self.private_key_bytes@
    }

    pub closed spec fn spec_access_expire_secs(&self) -> i64 {
        self.access_expire_secs
    }

    pub closed spec fn spec_refresh_expire_secs(&self) -> i64 {
        self.refresh_expire_secs
    }

    pub fn new(private_key_bytes: Vec<u8>, access_expire_secs: i64, refresh_expire_secs: i64) -> (r: Self)
        ensures
            r.spec_key() == private_key_bytes@,
            r.spec_access_expire_secs() == access_expire_secs,
            r.spec_refresh_expire_secs() == refresh_expire_secs,
    {
        Jwt { private_key_bytes, access_expire_secs, refresh_expire_secs }
    }

    /// The key that signs and checks the tokens.
    pub fn private_key_bytes(&self) -> (r: &[u8])
        ensures
            r@ == self.spec_key(),
    {
        self.private_key_bytes.as_slice()
    }

    /// How long an access token lives, in seconds.
    pub fn access_expire_secs(&self) -> (r: i64)
        ensures
            r == self.spec_access_expire_secs(),
    {
        self.access_expire_secs
    }

    /// How long a refresh token lives, in seconds.
    pub fn refresh_expire_secs(&self) -> (r: i64)
        ensures
            r == self.spec_refresh_expire_secs(),
    {
        self.refresh_expire_secs
    }

    /// The claims of an access token issued at `now` (UNIX seconds) to the user: it
    /// expires `access_expire_secs` later; both instants are cast to `usize` as the
    /// timestamps are.
    pub fn access_claims(&self, user_id: Uuid, role: Option<String>, now: i64) -> (r: AccessClaims)
        requires
            i64::MIN <= now + self.spec_access_expire_secs() <= i64::MAX,
        ensures
            r.sub == user_id,
            r.exp == (now + self.spec_access_expire_secs()) as usize,
            r.iat == now as usize,
            r.token_type@ == TYPE_ACCESS@,
            r.role == role,
    {
        let expire = now + self.access_expire_secs;
        AccessClaims {
            sub: user_id,
            exp: expire as usize,
            iat: now as usize,
            token_type: String::from_str(TYPE_ACCESS),
            role,
        }
    }

    /// The claims of a refresh token issued at `now` to the user: it expires
    /// `refresh_expire_secs` later.
    pub fn refresh_claims(&self, user_id: Uuid, now: i64) -> (r: RefreshClaims)
        requires
            i64::MIN <= now + self.spec_refresh_expire_secs() <= i64::MAX,
        ensures
            r.sub == user_id,
            r.exp == (now + self.spec_refresh_expire_secs()) as usize,
            r.iat == now as usize,
            r.token_type@ == TYPE_REFRESH@,
    {
        let expire = now + self.refresh_expire_secs;
        RefreshClaims {
            sub: user_id,
            exp: expire as usize,
            iat: now as usize,
            token_type: String::from_str(TYPE_REFRESH),
        }
    }
}

/// Tokens of one kind are refused where the other kind is expected: the type that refresh
/// claims carry is never that of access claims, and the other way round.
pub proof fn law_token_kinds_differ(token_type: Seq<char>)
    ensures
        token_type == TYPE_REFRESH@ ==> token_type != TYPE_ACCESS@,
        token_type == TYPE_ACCESS@ ==> token_type != TYPE_REFRESH@,
{
    reveal_strlit("access");
    reveal_strlit("refresh");
    assert(TYPE_ACCESS@[0] != TYPE_REFRESH@[0]);
}

} // verus!
