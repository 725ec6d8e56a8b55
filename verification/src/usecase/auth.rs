//! Registration, e-mail confirmation, login and token refresh.
use vstd::prelude::*;
use vstd::string::*;
use crate::adapter::db::models::{User as UserDB, UserView};
use crate::adapter::db::postgres::tables::users::Users as DBUsers;
use crate::adapter::db::RepositoryError;
use crate::adapter::email::EmailSender;
use crate::adapter::helpers::{email_address_valid, is_valid_email};
use crate::adapter::jwt::{AccessClaims, JWTError, Jwt, RefreshClaims, TYPE_ACCESS, TYPE_REFRESH};
use crate::consts;
use crate::err_msg::ErrMsg;
use crate::status;
use crate::text::{clone_opt, str_eq};
use crate::types::{uuid_simple_text, Uuid};
use super::helpers::{argon2_verifies, password_hash, password_verify, phc_parse_error};
use super::{repository_error, shown, UseCaseError, UseCaseErrorView};

verus! {

/// The refusal of an address that the e-mail check rejects; the address goes to the log.
pub open spec fn bad_email(email: Seq<char>) -> UseCaseErrorView {
    UseCaseErrorView::Transport {
        status_code: status::BAD_REQUEST,
        public_err: ErrMsg::EmailNotCorrect.text(),
        internal_err: Some("user send bad email ("@ + email + ")"@),
    }
}

/// Why a registration is refused before anything is stored, checked in this order: the
/// address is not valid, the password is shorter than `MIN_PASSWORD_LEN` characters, the
/// confirmation differs, the agreement or the privacy policy is not accepted.
pub open spec fn register_refusal(
    email: Seq<char>,
    password: Seq<char>,
    password_confirm: Seq<char>,
    agreement: bool,
    privacy_policy: bool,
) -> Option<UseCaseErrorView> {
    if !email_address_valid(email) {
        Some(bad_email(email))
    } else if password.len() < consts::MIN_PASSWORD_LEN {
        Some(shown(status::BAD_REQUEST, ErrMsg::PasswordIsShort))
    } else if password != password_confirm {
        Some(shown(status::BAD_REQUEST, ErrMsg::PasswordsNotEquals))
    } else if !agreement {
        Some(shown(status::BAD_REQUEST, ErrMsg::NeedAcceptAgreement))
    } else if !privacy_policy {
        Some(shown(status::BAD_REQUEST, ErrMsg::NeedAcceptPrivacyPolicy))
    } else {
        None
    }
}

/// The link that confirms an address.
pub open spec fn confirm_link(addr: Seq<char>, email: Seq<char>, code: Seq<char>) -> Seq<char> {
    addr + "/register/confirm?email="@ + email + "&code="@ + code
}

/// The subject of the confirmation mail.
pub open spec fn confirm_subject(addr: Seq<char>) -> Seq<char> {
    "Confirm email from "@ + addr
}

/// The body of the confirmation mail: the link, as a link.
pub open spec fn confirm_message(link: Seq<char>) -> Seq<char> {
    "Confirm email: <a href=\""@ + link + "\">"@ + link + "</a>"@
}

/// Why a confirmation is refused before the user is read, checked in this order: no
/// address, no code, an address that is not valid.
pub open spec fn confirm_refusal(email: Seq<char>, code: Seq<char>) -> Option<UseCaseErrorView> {
    if email.len() == 0 {
        Some(shown(status::BAD_REQUEST, ErrMsg::EmailNotBeEmpty))
    } else if code.len() == 0 {
        Some(shown(status::BAD_REQUEST, ErrMsg::VerifyCodeNotBeEmpty))
    } else if !email_address_valid(email) {
        Some(shown(status::BAD_REQUEST, ErrMsg::EmailNotCorrect))
    } else {
        None
    }
}

/// What confirming the stored user with a code gives: refused where the address is
/// already confirmed (no code stored) or the code differs, else the user without a code.
pub open spec fn confirm_outcome(user: UserView, code: Seq<char>) -> Result<UserView, UseCaseErrorView> {
    match user.email_code {
        None => Err(shown(status::BAD_REQUEST, ErrMsg::EmailAlreadyConfirm)),
        Some(expected) => if expected != code {
            Err(shown(status::BAD_REQUEST, ErrMsg::NotCorrectVerifyEmailCode))
        } else {
            Ok(UserView { email_code: None, ..user })
        },
    }
}

/// The stored user that a read by address gave, by its view, or the storage failure.
pub open spec fn lookup_view(lookup: Result<UserDB, RepositoryError>) -> Result<UserView, RepositoryError> {
    match lookup {
        Ok(u) => Ok(u@),
        Err(e) => Err(e),
    }
}

/// The whole decision of a confirmation, in this order: the checks of the request
/// (`confirm_refusal`); then the read of the user by the address, where a missing user is
/// `404` `NotFoundItem` and another failure is internal; then the stored code
/// (`confirm_outcome`). `Ok` is the user to store back; on every refusal nothing is
/// stored.
pub open spec fn confirm_decision(
    email: Seq<char>,
    code: Seq<char>,
    lookup: Result<UserView, RepositoryError>,
) -> Result<UserView, UseCaseErrorView> {
    match confirm_refusal(email, code) {
        Some(e) => Err(e),
        None => match lookup {
            Err(e) => Err(repository_error(e)),
            Ok(u) => confirm_outcome(u, code),
        },
    }
}

/// Why a login is refused before the user is read: an address that is not valid, a
/// password that is too short.
pub open spec fn login_refusal(email: Seq<char>, password: Seq<char>) -> Option<UseCaseErrorView> {
    if !email_address_valid(email) {
        Some(bad_email(email))
    } else if password.len() < consts::MIN_PASSWORD_LEN {
        Some(shown(status::BAD_REQUEST, ErrMsg::PasswordIsShort))
    } else {
        None
    }
}

/// What a failed read of the user by address answers at login: an unknown user, or an
/// internal error.
pub open spec fn login_lookup_error(e: RepositoryError) -> UseCaseErrorView {
    if e is NotFoundRow {
        UseCaseErrorView::UserNotExists
    } else {
        UseCaseErrorView::Common(e.text())
    }
}

/// Whether the stored user may log in with the password: not before the address is
/// confirmed; then exactly when the password verifies against the stored hash; an
/// unreadable stored hash is an internal error.
pub open spec fn login_outcome(user: UserView, password: Seq<char>) -> Result<(), UseCaseErrorView> {
    if user.email_code is Some {
        Err(shown(status::BAD_REQUEST, ErrMsg::VerifyYourEmail))
    } else if argon2_verifies(password, user.password) {
        Ok(())
    } else {
        match phc_parse_error(user.password) {
            Some(m) => Err(UseCaseErrorView::Common("failed to verify password: "@ + m)),
            None => Err(shown(status::BAD_REQUEST, ErrMsg::LoginOrPasswordNotCorrect)),
        }
    }
}

/// What a refresh answers for a token that does not pass the check: expired, or not
/// valid.
pub open spec fn refresh_token_error(e: JWTError) -> UseCaseErrorView {
    if e is ExpiredToken {
        shown(status::BAD_REQUEST, ErrMsg::TokenExpired)
    } else {
        shown(status::BAD_REQUEST, ErrMsg::TokenNotValid)
    }
}

/// What a registration stores and mails: the new user, and the confirmation mail.
pub struct Registration {
    pub user: UserDB,
    pub email_subject: String,
    pub email_message: String,
}

/// Registration, confirmation, login and token refresh.
pub struct Auth<ES> {
    addr: String,
    email_sender: ES,
    users_repo: DBUsers,
    pub jwt_service: Jwt,
}

impl<ES: EmailSender> Auth<ES> {
    pub closed spec fn spec_addr(&self) -> Seq<char> {
        self.addr@
    }

    pub closed spec fn spec_jwt(&self) -> Jwt {
        self.jwt_service
    }

    pub closed spec fn spec_email_sender(&self) -> ES {
        self.email_sender
    }

    pub closed spec fn spec_users_repo(&self) -> DBUsers {
        self.users_repo
    }

    pub fn new(addr: String, jwt_service: Jwt, email_sender: ES, users_repo: DBUsers) -> (r: Self)
        ensures
            r.spec_addr() == addr@,
            r.spec_jwt() == jwt_service,
            r.spec_email_sender() == email_sender,
            r.spec_users_repo() == users_repo,
    {
        Auth { addr, email_sender, users_repo, jwt_service }
    }

    /// The sender of the confirmation mail.
    pub fn email_sender(&self) -> (r: &ES)
        ensures
            *r == self.spec_email_sender(),
    {
        &self.email_sender
    }

    /// The table of users.
    pub fn users_repo(&self) -> (r: &DBUsers)
        ensures
            *r == self.spec_users_repo(),
    {
        &self.users_repo
    }

    /// The checks of `register` before anything is stored.
    pub fn register_check(
        ref_email: &str,
        ref_password: &str,
        ref_password_confirm: &str,
        agreement: bool,
        privacy_policy: bool,
    ) -> (r: Result<(), UseCaseError>)
        ensures
            match register_refusal(
                ref_email@,
                ref_password@,
                ref_password_confirm@,
                agreement,
                privacy_policy,
            ) {
                Some(e) => r matches Err(x) && x@ == e,
                None => r is Ok,
            },
            r is Ok ==> ref_email@.contains('@'),
    {
        if !is_valid_email(ref_email) {
            let mut internal = String::from_str("user send bad email (");
            internal.append(ref_email);
            internal.append(")");
            return Err(
                UseCaseError::Transport {
                    status_code: status::BAD_REQUEST,
                    public_err: ErrMsg::EmailNotCorrect.to_string(),
                    internal_err: Some(internal),
                },
            );
        }
        if ref_password.unicode_len() < consts::MIN_PASSWORD_LEN {
            return Err(UseCaseError::shown(status::BAD_REQUEST, ErrMsg::PasswordIsShort));
        }
        if !str_eq(ref_password, ref_password_confirm) {
            return Err(UseCaseError::shown(status::BAD_REQUEST, ErrMsg::PasswordsNotEquals));
        }
        if !agreement {
            return Err(UseCaseError::shown(status::BAD_REQUEST, ErrMsg::NeedAcceptAgreement));
        }
        if !privacy_policy {
            return Err(UseCaseError::shown(status::BAD_REQUEST, ErrMsg::NeedAcceptPrivacyPolicy));
        }
        Ok(())
    }

    /// What `register` stores and mails, once its checks pass: a user with the address,
    /// the hash of the password and a fresh random confirmation code (32 hexadecimal
    /// digits), and a mail with the link that confirms it. Refused as `register_refusal`
    /// says; otherwise it fails only where hashing fails, which it does not for a password
    /// of at most `0xFFFF_FFFF` bytes.
    pub fn register(
        &self,
        ref_email: &str,
        ref_password: &str,
        ref_password_confirm: &str,
        agreement: bool,
        privacy_policy: bool,
    ) -> (r: Result<Registration, UseCaseError>)
        ensures
            match register_refusal(
                ref_email@,
                ref_password@,
                ref_password_confirm@,
                agreement,
                privacy_policy,
            ) {
                Some(e) => r matches Err(x) && x@ == e,
                None => match r {
                    Ok(reg) => {
                        let u = reg.user@;
                        &&& u.email == ref_email@
                        &&& ref_email@.contains('@')
                        &&& argon2_verifies(ref_password@, u.password)
                        &&& u.user_id.value == 0
                        &&& u.name is None && u.avatar is None && u.role is None
                        &&& u.email_code matches Some(code) && (exists|v: u128|
                            code == uuid_simple_text(v))
                            && reg.email_message@ == confirm_message(
                            confirm_link(self.spec_addr(), ref_email@, code),
                        )
                        &&& reg.email_subject@ == confirm_subject(self.spec_addr())
                    },
                    Err(x) => exists|m: Seq<char>|
                        x@ == UseCaseErrorView::Common("failed to create password hash: "@ + m),
                },
            },
            register_refusal(
                ref_email@,
                ref_password@,
                ref_password_confirm@,
                agreement,
                privacy_policy,
            ) is None && ref_password@.len() * 4 <= 0xFFFF_FFFF ==> r is Ok,
    {
        Self::register_check(ref_email, ref_password, ref_password_confirm, agreement, privacy_policy)?;
        let code = Uuid::new_v4().simple_string();
        let password_hash = match password_hash(ref_password) {
            Ok(h) => h,
            Err(e) => {
                let mut m = String::from_str("failed to create password hash: ");
                m.append(e.as_str());
                return Err(UseCaseError::Common(m));
            },
        };
        let mut link = self.addr.clone();
        link.append("/register/confirm?email=");
        link.append(ref_email);
        link.append("&code=");
        link.append(code.as_str());
        let mut email_subject = String::from_str("Confirm email from ");
        email_subject.append(self.addr.as_str());
        let mut email_message = String::from_str("Confirm email: <a href=\"");
        email_message.append(link.as_str());
        email_message.append("\">");
        email_message.append(link.as_str());
        email_message.append("</a>");
        let mut user = UserDB::default();
        user.email = String::from_str(ref_email);
        user.password = password_hash;
        user.email_code = Some(code);
        Ok(Registration { user, email_subject, email_message })
    }

    /// The failure of sending the confirmation mail, with the sender's message.
    pub fn send_failed(e: String) -> (r: UseCaseError)
        ensures
            r@ == UseCaseErrorView::Common("failed to send email: "@ + e@),
    {
        let mut m = String::from_str("failed to send email: ");
        m.append(e.as_str());
        UseCaseError::Common(m)
    }

    /// The checks of `register_confirm` before the user is read.
    pub fn register_confirm_check(ref_email: &str, ref_actual_code: &str) -> (r: Result<(), UseCaseError>)
        ensures
            match confirm_refusal(ref_email@, ref_actual_code@) {
                Some(e) => r matches Err(x) && x@ == e,
                None => r is Ok,
            },
    {
        if ref_email.is_empty() {
            return Err(UseCaseError::shown(status::BAD_REQUEST, ErrMsg::EmailNotBeEmpty));
        }
        if ref_actual_code.is_empty() {
            return Err(UseCaseError::shown(status::BAD_REQUEST, ErrMsg::VerifyCodeNotBeEmpty));
        }
        if !is_valid_email(ref_email) {
            return Err(UseCaseError::shown(status::BAD_REQUEST, ErrMsg::EmailNotCorrect));
        }
        Ok(())
    }

    /// Confirms the stored user with the code it was mailed: the user to store back, or
    /// the refusal, as `confirm_outcome` says.
    pub fn register_confirm(user_db: UserDB, ref_actual_code: &str) -> (r: Result<UserDB, UseCaseError>)
        ensures
            match r {
                Ok(u) => confirm_outcome(user_db@, ref_actual_code@) == Ok::<UserView, UseCaseErrorView>(u@),
                Err(e) => confirm_outcome(user_db@, ref_actual_code@) == Err::<UserView, UseCaseErrorView>(e@),
            },
    {
        let mut user_db = user_db;
        let expected_code = match &user_db.email_code {
            Some(c) => c.clone(),
            None => {
                return Err(UseCaseError::shown(status::BAD_REQUEST, ErrMsg::EmailAlreadyConfirm));
            },
        };
        if !str_eq(expected_code.as_str(), ref_actual_code) {
            return Err(UseCaseError::shown(status::BAD_REQUEST, ErrMsg::NotCorrectVerifyEmailCode));
        }
        user_db.email_code = None;
        Ok(user_db)
    }

    /// Confirms a registration: the checks of the request, then the result of reading
    /// the user by the address, then the stored code, as `confirm_decision` says. The read
    /// is needed only once the checks pass (`register_confirm_check`); `Ok` is the user to
    /// store back.
    pub fn confirm_registration(
        ref_email: &str,
        ref_actual_code: &str,
        lookup: Result<UserDB, RepositoryError>,
    ) -> (r: Result<UserDB, UseCaseError>)
        ensures
            match r {
                Ok(u) => confirm_decision(ref_email@, ref_actual_code@, lookup_view(lookup))
                    == Ok::<UserView, UseCaseErrorView>(u@),
                Err(e) => confirm_decision(ref_email@, ref_actual_code@, lookup_view(lookup))
                    == Err::<UserView, UseCaseErrorView>(e@),
            },
    {
        Self::register_confirm_check(ref_email, ref_actual_code)?;
        match lookup {
            Ok(user_db) => Self::register_confirm(user_db, ref_actual_code),
            Err(e) => Err(UseCaseError::from_repository(e)),
        }
    }

    /// The checks of `login` before the user is read.
    pub fn login_check(ref_email: &str, ref_password: &str) -> (r: Result<(), UseCaseError>)
        ensures
            match login_refusal(ref_email@, ref_password@) {
                Some(e) => r matches Err(x) && x@ == e,
                None => r is Ok,
            },
    {
        if !is_valid_email(ref_email) {
            let mut internal = String::from_str("user send bad email (");
            internal.append(ref_email);
            internal.append(")");
            return Err(
                UseCaseError::Transport {
                    status_code: status::BAD_REQUEST,
                    public_err: ErrMsg::EmailNotCorrect.to_string(),
                    internal_err: Some(internal),
                },
            );
        }
        if ref_password.unicode_len() < consts::MIN_PASSWORD_LEN {
            return Err(UseCaseError::shown(status::BAD_REQUEST, ErrMsg::PasswordIsShort));
        }
        Ok(())
    }

    /// What `login` answers where the user cannot be read by address: an unknown user
    /// (the client is sent to register), or an internal error.
    pub fn login_lookup_error(e: RepositoryError) -> (r: UseCaseError)
        ensures
            r@ == login_lookup_error(e),
    {
        match e {
            RepositoryError::NotFoundRow => UseCaseError::UserNotExists,
            other => UseCaseError::Common(other.to_string()),
        }
    }

    /// Whether the stored user may log in with the password, as `login_outcome` says.
    /// The tokens are issued after this passes.
    pub fn login_verify(user_db: &UserDB, ref_password: &str) -> (r: Result<(), UseCaseError>)
        ensures
            match r {
                Ok(()) => login_outcome(user_db@, ref_password@) is Ok,
                Err(e) => login_outcome(user_db@, ref_password@) == Err::<(), UseCaseErrorView>(e@),
            },
    {
        if user_db.email_code.is_some() {
            return Err(UseCaseError::shown(status::BAD_REQUEST, ErrMsg::VerifyYourEmail));
        }
        let password_is_eq = match password_verify(ref_password, user_db.password.as_str()) {
            Ok(b) => b,
            Err(e) => {
                let mut m = String::from_str("failed to verify password: ");
                m.append(e.as_str());
                return Err(UseCaseError::Common(m));
            },
        };
        if !password_is_eq {
            return Err(UseCaseError::shown(status::BAD_REQUEST, ErrMsg::LoginOrPasswordNotCorrect));
        }
        Ok(())
    }

    /// What a refresh answers for a token that did not pass the check.
    pub fn refresh_token_error(e: JWTError) -> (r: UseCaseError)
        ensures
            r@ == refresh_token_error(e),
    {
        match e {
            JWTError::ExpiredToken => UseCaseError::shown(status::BAD_REQUEST, ErrMsg::TokenExpired),
            _ => UseCaseError::shown(status::BAD_REQUEST, ErrMsg::TokenNotValid),
        }
    }

    /// The claims of the two tokens that a login or a refresh issues at `now` (UNIX
    /// seconds) to the stored user: both name the user, the access token carries the
    /// user's role, and each expires its own lifetime after `now`.
    pub fn token_claims(&self, user_db: &UserDB, now: i64) -> (r: (AccessClaims, RefreshClaims))
        requires
            i64::MIN <= now + self.spec_jwt().spec_access_expire_secs() <= i64::MAX,
            i64::MIN <= now + self.spec_jwt().spec_refresh_expire_secs() <= i64::MAX,
        ensures
            r.0.sub == user_db.user_id,
            r.0.role == user_db.role,
            r.0.token_type@ == TYPE_ACCESS@,
            r.0.iat == now as usize,
            r.0.exp == (now + self.spec_jwt().spec_access_expire_secs()) as usize,
            r.1.sub == user_db.user_id,
            r.1.token_type@ == TYPE_REFRESH@,
            r.1.iat == now as usize,
            r.1.exp == (now + self.spec_jwt().spec_refresh_expire_secs()) as usize,
    {
        let access = self.jwt_service.access_claims(user_db.user_id, clone_opt(&user_db.role), now);
        let refresh = self.jwt_service.refresh_claims(user_db.user_id, now);
        (access, refresh)
    }

    /// The user whose tokens a checked refresh token renews: refused unless it is a
    /// refresh token.
    pub fn refresh_subject(claims: &RefreshClaims) -> (r: Result<Uuid, UseCaseError>)
        ensures
            claims.token_type@ == TYPE_REFRESH@ ==> r == Ok::<Uuid, UseCaseError>(claims.sub),
            claims.token_type@ != TYPE_REFRESH@ ==> (r matches Err(e) && e@ == shown(
                status::BAD_REQUEST,
                ErrMsg::TokenIsNotRefresh,
            )),
    {
        if !str_eq(claims.token_type.as_str(), TYPE_REFRESH) {
            return Err(UseCaseError::shown(status::BAD_REQUEST, ErrMsg::TokenIsNotRefresh));
        }
        Ok(claims.sub)
    }
}

/// A user who registered with a password (so that `register` stored the address, which
/// holds an `@`, a mailed code and a hash that the password verifies against) and was read
/// back as stored, passes the checks of confirmation with the mailed code, is confirmed,
/// and can then log in with that password; and the code works only once.
pub proof fn law_register_confirm_login(
    email: Seq<char>,
    password: Seq<char>,
    stored: UserView,
    code: Seq<char>,
)
    requires
        register_refusal(email, password, password, true, true) is None,
        email.contains('@'),
        stored.email == email,
        stored.email_code == Some(code),
        exists|v: u128| code == uuid_simple_text(v),
        argon2_verifies(password, stored.password),
    ensures
        confirm_refusal(email, code) is None,
        confirm_outcome(stored, code) is Ok,
        login_refusal(email, password) is None,
        login_outcome(confirm_outcome(stored, code)->Ok_0, password) is Ok,
        confirm_outcome(confirm_outcome(stored, code)->Ok_0, code) == Err::<UserView, UseCaseErrorView>(
            shown(status::BAD_REQUEST, ErrMsg::EmailAlreadyConfirm),
        ),
{
    let v = choose|v: u128| code == uuid_simple_text(v);
    assert(code.len() == 32);
}

/// The checks of a registration, in order: an address the e-mail check rejects is
/// refused with it; then a password shorter than the minimum; then a confirmation that
/// differs from the password as text (whatever their lengths); then the agreement, then
/// the privacy policy; a request that passes all of them is not refused.
pub proof fn law_register_checks(
    email: Seq<char>,
    password: Seq<char>,
    password_confirm: Seq<char>,
    agreement: bool,
    privacy_policy: bool,
)
    ensures
        !email_address_valid(email) ==> register_refusal(
            email,
            password,
            password_confirm,
            agreement,
            privacy_policy,
        ) == Some(bad_email(email)),
        email_address_valid(email) && password.len() < consts::MIN_PASSWORD_LEN
            ==> register_refusal(email, password, password_confirm, agreement, privacy_policy)
            == Some(shown(status::BAD_REQUEST, ErrMsg::PasswordIsShort)),
        email_address_valid(email) && password.len() >= consts::MIN_PASSWORD_LEN && password
            != password_confirm ==> register_refusal(
            email,
            password,
            password_confirm,
            agreement,
            privacy_policy,
        ) == Some(shown(status::BAD_REQUEST, ErrMsg::PasswordsNotEquals)),
        email_address_valid(email) && password.len() >= consts::MIN_PASSWORD_LEN && password
            == password_confirm && !agreement ==> register_refusal(
            email,
            password,
            password_confirm,
            agreement,
            privacy_policy,
        ) == Some(shown(status::BAD_REQUEST, ErrMsg::NeedAcceptAgreement)),
        email_address_valid(email) && password.len() >= consts::MIN_PASSWORD_LEN && password
            == password_confirm && agreement && !privacy_policy ==> register_refusal(
            email,
            password,
            password_confirm,
            agreement,
            privacy_policy,
        ) == Some(shown(status::BAD_REQUEST, ErrMsg::NeedAcceptPrivacyPolicy)),
        register_refusal(email, password, password_confirm, agreement, privacy_policy) is None
            <==> (email_address_valid(email) && password.len() >= consts::MIN_PASSWORD_LEN
            && password == password_confirm && agreement && privacy_policy),
{
}

/// A confirmation succeeds only with the stored code itself: any other code, of whatever
/// length, is refused as not correct; the stored code confirms the user, clearing the code
/// and keeping every other field; an address already confirmed is refused as such.
pub proof fn law_confirm_needs_stored_code(user: UserView, code: Seq<char>)
    ensures
        user.email_code matches Some(expected) && code != expected ==> confirm_outcome(user, code)
            == Err::<UserView, UseCaseErrorView>(
            shown(status::BAD_REQUEST, ErrMsg::NotCorrectVerifyEmailCode),
        ),
        user.email_code == Some(code) ==> confirm_outcome(user, code) == Ok::<
            UserView,
            UseCaseErrorView,
        >(UserView { email_code: None, ..user }),
        user.email_code is None ==> confirm_outcome(user, code) == Err::<UserView, UseCaseErrorView>(
            shown(status::BAD_REQUEST, ErrMsg::EmailAlreadyConfirm),
        ),
{
}

} // verus!
