use mkk_basis::adapter::db::models::User as UserDB;
use mkk_basis::adapter::db::postgres::tables::users::Users as DBUsers;
use mkk_basis::adapter::db::postgres::transactor::TransactionError;
use mkk_basis::adapter::db::RepositoryError;
use mkk_basis::adapter::email::EmailSender;
use mkk_basis::adapter::jwt::{JWTError, Jwt, RefreshClaims};
use mkk_basis::err_msg::ErrMsg;
use mkk_basis::types::{DateTime, Uuid};
use mkk_basis::usecase::auth::Auth;
use mkk_basis::usecase::helpers::{password_hash, password_verify};
use mkk_basis::usecase::models::{Task, UserCreate, UserUpdate};
use mkk_basis::usecase::task_comments::TaskComments;
use mkk_basis::usecase::tasks::Tasks;
use mkk_basis::usecase::teams::Teams;
use mkk_basis::usecase::users::Users;
use mkk_basis::usecase::UseCaseError;

struct NoMail;

impl EmailSender for NoMail {
    fn send(&self, _to: &str, _subject: &str, _body: &str) -> Result<(), String> {
        Ok(())
    }
}

fn auth() -> Auth<NoMail> {
    Auth::new(
        "http://localhost.loc".to_string(),
        Jwt::new(vec![1, 2, 3], 60, 120),
        NoMail,
        DBUsers::new(),
    )
}

fn transport(e: UseCaseError) -> (u16, String, Option<String>) {
    match e {
        UseCaseError::Transport { status_code, public_err, internal_err } => {
            (status_code, public_err, internal_err)
        }
        other => panic!("expected an error for the client, got {other:?}"),
    }
}

fn common(e: UseCaseError) -> String {
    match e {
        UseCaseError::Common(m) => m,
        other => panic!("expected an internal error, got {other:?}"),
    }
}

#[test]
fn register_refuses_in_order() {
    let e = Auth::<NoMail>::register_check("not-an-email", "x", "y", false, false).unwrap_err();
    assert_eq!(
        transport(e),
        (
            400,
            ErrMsg::EmailNotCorrect.to_string(),
            Some("user send bad email (not-an-email)".to_string())
        )
    );
    let e = Auth::<NoMail>::register_check("a@b.ru", "1234", "1234", true, true).unwrap_err();
    assert_eq!(
        transport(e),
        (400, "пароль слишком короткий, нужно более или равно 5".to_string(), None)
    );
    let e = Auth::<NoMail>::register_check("a@b.ru", "пароль", "парол", true, true).unwrap_err();
    assert_eq!(transport(e).1, ErrMsg::PasswordsNotEquals.to_string());
    let e = Auth::<NoMail>::register_check("a@b.ru", "12345", "12345", false, true).unwrap_err();
    assert_eq!(transport(e).1, ErrMsg::NeedAcceptAgreement.to_string());
    let e = Auth::<NoMail>::register_check("a@b.ru", "12345", "12345", true, false).unwrap_err();
    assert_eq!(transport(e).1, ErrMsg::NeedAcceptPrivacyPolicy.to_string());
    assert!(Auth::<NoMail>::register_check("a@b.ru", "12345", "12345", true, true).is_ok());
}

#[test]
fn password_length_counts_characters() {
    // five Cyrillic letters are ten bytes but five characters
    assert!(Auth::<NoMail>::login_check("a@b.ru", "пароль").is_ok());
    assert!(Auth::<NoMail>::login_check("a@b.ru", "абвг").is_err());
}

#[test]
fn register_then_confirm_then_login() {
    let a = auth();
    let reg = a.register("user@example.com", "secret1", "secret1", true, true).unwrap();
    assert_eq!(reg.user.email, "user@example.com");
    let code = reg.user.email_code.clone().unwrap();
    assert_eq!(code.len(), 32);
    assert!(code.chars().all(|c| c.is_ascii_hexdigit() && !c.is_ascii_uppercase()));
    assert_eq!(reg.email_subject, "Confirm email from http://localhost.loc");
    let link = format!("http://localhost.loc/register/confirm?email=user@example.com&code={code}");
    assert_eq!(reg.email_message, format!("Confirm email: <a href=\"{link}\">{link}</a>"));
    assert_ne!(reg.user.password, "secret1");

    // before confirmation the login is refused
    let e = Auth::<NoMail>::login_verify(&reg.user, "secret1").unwrap_err();
    assert_eq!(transport(e).1, ErrMsg::VerifyYourEmail.to_string());

    assert!(Auth::<NoMail>::register_confirm_check("user@example.com", &code).is_ok());
    let wrong = Auth::<NoMail>::register_confirm(reg.user.clone(), "0000").unwrap_err();
    assert_eq!(transport(wrong).1, ErrMsg::NotCorrectVerifyEmailCode.to_string());
    let confirmed = Auth::<NoMail>::register_confirm(reg.user.clone(), &code).unwrap();
    assert_eq!(confirmed.email_code, None);
    assert_eq!(confirmed.password, reg.user.password);

    // the code works once
    let again = Auth::<NoMail>::register_confirm(confirmed.clone(), &code).unwrap_err();
    assert_eq!(transport(again).1, ErrMsg::EmailAlreadyConfirm.to_string());

    assert!(Auth::<NoMail>::login_check("user@example.com", "secret1").is_ok());
    assert!(Auth::<NoMail>::login_verify(&confirmed, "secret1").is_ok());
    let e = Auth::<NoMail>::login_verify(&confirmed, "secret2").unwrap_err();
    assert_eq!(transport(e), (400, ErrMsg::LoginOrPasswordNotCorrect.to_string(), None));
}

#[test]
fn confirm_checks() {
    let e = Auth::<NoMail>::register_confirm_check("", "").unwrap_err();
    assert_eq!(transport(e).1, ErrMsg::EmailNotBeEmpty.to_string());
    let e = Auth::<NoMail>::register_confirm_check("a@b.ru", "").unwrap_err();
    assert_eq!(transport(e).1, ErrMsg::VerifyCodeNotBeEmpty.to_string());
    let e = Auth::<NoMail>::register_confirm_check("nope", "code").unwrap_err();
    assert_eq!(transport(e), (400, ErrMsg::EmailNotCorrect.to_string(), None));
}

#[test]
fn login_with_unreadable_hash_is_internal() {
    let mut user = UserDB::default();
    user.password = "not a phc string".to_string();
    let e = Auth::<NoMail>::login_verify(&user, "secret1").unwrap_err();
    assert!(common(e).starts_with("failed to verify password: "));
}

#[test]
fn login_lookup_errors() {
    assert!(matches!(
        Auth::<NoMail>::login_lookup_error(RepositoryError::NotFoundRow),
        UseCaseError::UserNotExists
    ));
    let e = Auth::<NoMail>::login_lookup_error(RepositoryError::FailedToQuery("down".to_string()));
    assert_eq!(common(e), "failed to query: down");
}

#[test]
fn refresh_decisions() {
    let e = Auth::<NoMail>::refresh_token_error(JWTError::ExpiredToken);
    assert_eq!(transport(e), (400, ErrMsg::TokenExpired.to_string(), None));
    let e = Auth::<NoMail>::refresh_token_error(JWTError::Common("InvalidSignature".to_string()));
    assert_eq!(transport(e).1, ErrMsg::TokenNotValid.to_string());
    let claims = RefreshClaims {
        sub: Uuid { value: 9 },
        exp: 2,
        iat: 1,
        token_type: "access".to_string(),
    };
    let e = Auth::<NoMail>::refresh_subject(&claims).unwrap_err();
    assert_eq!(transport(e).1, ErrMsg::TokenIsNotRefresh.to_string());
    let claims = RefreshClaims { token_type: "refresh".to_string(), ..claims };
    assert_eq!(Auth::<NoMail>::refresh_subject(&claims).unwrap(), Uuid { value: 9 });
    assert_eq!(
        common(Auth::<NoMail>::send_failed("smtp down".to_string())),
        "failed to send email: smtp down"
    );
}

#[test]
fn passwords_hash_and_verify() {
    let h = password_hash("qwerty").unwrap();
    assert!(h.starts_with("$argon2id$"));
    assert_eq!(password_verify("qwerty", &h), Ok(true));
    assert_eq!(password_verify("qwertz", &h), Ok(false));
    assert!(password_verify("qwerty", "garbage").is_err());
}

#[test]
fn repository_errors_for_use_cases() {
    let e = UseCaseError::from_repository(RepositoryError::NotFoundRow);
    assert_eq!(transport(e), (404, ErrMsg::NotFoundItem.to_string(), None));
    let e = UseCaseError::from_repository(RepositoryError::FailedToDelete("x".to_string()));
    assert_eq!(common(e), "failed to delete: x");
    let e = UseCaseError::from_transaction(TransactionError::Database("gone".to_string()));
    assert_eq!(common(e), "gone");
    let e = UseCaseError::from_transaction(TransactionError::Operation(UseCaseError::UserNotExists));
    assert!(matches!(e, UseCaseError::UserNotExists));
    let e = UseCaseError::from_repository_transaction(TransactionError::Operation(
        RepositoryError::NotFoundRow,
    ));
    assert_eq!(transport(e).0, 404);
    assert_eq!(common(UseCaseError::from_jwt(JWTError::ExpiredToken)), "token expired");
    assert_eq!(
        common(TaskComments::list_error(RepositoryError::FailedToQuery("q".to_string()))),
        "failed to get items: failed to query: q"
    );
}

fn stored_user() -> UserDB {
    UserDB {
        user_id: Uuid { value: 5 },
        email: "old@example.com".to_string(),
        password: "hash".to_string(),
        name: Some("Old".to_string()),
        email_code: None,
        avatar: Some("./web/uploaded/1_abcde.png".to_string()),
        role: None,
        created_at: DateTime::from_timestamp(10, 0).unwrap(),
        updated_at: DateTime::from_timestamp(20, 0).unwrap(),
    }
}

fn empty_update() -> UserUpdate {
    UserUpdate {
        user_id: Uuid { value: 5 },
        email: None,
        password: None,
        name: None,
        email_code: None,
        role: None,
        avatar: None,
        is_remove_avatar: false,
    }
}

#[test]
fn empty_update_writes_nothing() {
    let plan = Users::update(stored_user(), empty_update()).unwrap();
    assert!(!plan.write);
    assert_eq!(plan.remove_file, None);
    assert_eq!(plan.user.email, "old@example.com");
}

#[test]
fn update_replaces_given_fields_and_hashes_password() {
    let upd = UserUpdate {
        name: Some("New".to_string()),
        password: Some("secret9".to_string()),
        role: Some("admin".to_string()),
        ..empty_update()
    };
    let plan = Users::update(stored_user(), upd).unwrap();
    assert!(plan.write);
    assert_eq!(plan.user.name.as_deref(), Some("New"));
    assert_eq!(plan.user.role.as_deref(), Some("admin"));
    assert_eq!(plan.user.email, "old@example.com");
    assert_eq!(password_verify("secret9", &plan.user.password), Ok(true));
    // the former avatar file is removed after any write
    assert_eq!(plan.remove_file.as_deref(), Some("./web/uploaded/1_abcde.png"));
}

#[test]
fn update_avatar_removal() {
    let upd = UserUpdate { is_remove_avatar: true, ..empty_update() };
    let once = Users::apply_update(&stored_user(), upd, None);
    assert_eq!(once.avatar, None);
    let upd = UserUpdate {
        is_remove_avatar: true,
        avatar: Some("./web/uploaded/2_fghij.png".to_string()),
        ..empty_update()
    };
    let twice = Users::apply_update(&Users::apply_update(&stored_user(), upd, None), UserUpdate {
        is_remove_avatar: true,
        avatar: Some("./web/uploaded/2_fghij.png".to_string()),
        ..empty_update()
    }, None);
    assert_eq!(twice.avatar.as_deref(), Some("./web/uploaded/2_fghij.png"));
    assert_eq!(twice.user_id, Uuid { value: 5 });
}

#[test]
fn create_user_checks() {
    let base = UserCreate {
        email: String::new(),
        password: "p".to_string(),
        name: None,
        email_code: None,
        role: None,
        avatar: None,
    };
    let e = Users::create(base).unwrap_err();
    assert_eq!(transport(e), (400, "email is require".to_string(), None));
    let e = Users::create(UserCreate {
        email: "a@b.ru".to_string(),
        password: String::new(),
        name: None,
        email_code: None,
        role: None,
        avatar: None,
    })
    .unwrap_err();
    assert_eq!(transport(e).1, "password is require");
    let u = Users::create(UserCreate {
        email: "a@b.ru".to_string(),
        password: "pw".to_string(),
        name: Some("N".to_string()),
        email_code: None,
        role: Some("moder".to_string()),
        avatar: None,
    })
    .unwrap();
    assert_eq!(u.user_id, Uuid::nil());
    assert_eq!(password_verify("pw", &u.password), Ok(true));
    assert_eq!(u.role.as_deref(), Some("moder"));
    assert_eq!(Users::delete_file(&stored_user()).as_deref(), Some("./web/uploaded/1_abcde.png"));
    assert_eq!(
        common(Users::remove_file_failed("a.png", "denied")),
        "failed to remove file (a.png): denied"
    );
}

#[test]
fn invite_rules() {
    let me = Uuid { value: 1 };
    let other = Uuid { value: 2 };
    let team = Uuid { value: 3 };
    let guest = Uuid { value: 4 };
    assert!(Teams::invite_by_role(&Some("admin".to_string())));
    assert!(!Teams::invite_by_role(&Some("moder".to_string())));
    assert!(!Teams::invite_by_role(&None));
    let m = Teams::invite(me, &Some("admin".to_string()), None, team, guest).unwrap();
    assert_eq!((m.team_id, m.user_id), (team, guest));
    assert!(Teams::invite(me, &None, Some(me), team, guest).is_ok());
    let e = Teams::invite(me, &None, Some(other), team, guest).unwrap_err();
    assert_eq!(transport(e), (403, ErrMsg::NoRules.to_string(), None));
    let e = Teams::invite(me, &Some("moder".to_string()), Some(other), team, guest).unwrap_err();
    assert_eq!(transport(e).0, 403);
}

#[test]
fn tasks_rules() {
    let e = Tasks::access_error(RepositoryError::NotFoundRow);
    assert_eq!(transport(e), (403, ErrMsg::NoAccessTeamMemberOnly.to_string(), None));
    let e = Tasks::access_error(RepositoryError::FailedToQuery("q".to_string()));
    assert_eq!(common(e), "failed to query: q");
    let h = Tasks::history_record(Uuid { value: 7 }, Uuid { value: 8 }, "delete");
    assert_eq!((h.task_id, h.user_id, h.msg.as_str()), (Uuid { value: 7 }, Uuid { value: 8 }, "delete"));
    let task = Task {
        task_id: Uuid { value: 7 },
        name: "n".to_string(),
        description: None,
        created_by: Uuid { value: 1 },
        team_id: Uuid { value: 2 },
        assignee_id: None,
        status: "todo".to_string(),
        created_at: DateTime::default(),
        updated_at: DateTime::default(),
    };
    let c = Tasks::cancelled(task);
    assert_eq!(c.status, "cancelled");
    assert_eq!(c.task_id, Uuid { value: 7 });
}

#[test]
fn issued_token_claims() {
    let mut user = UserDB::default();
    user.user_id = Uuid { value: 5 };
    user.role = Some("admin".to_string());
    let (access, refresh) = auth().token_claims(&user, 1_000);
    assert_eq!(access.sub, Uuid { value: 5 });
    assert_eq!((access.iat, access.exp), (1_000, 1_060));
    assert_eq!(access.token_type, "access");
    assert_eq!(access.role.as_deref(), Some("admin"));
    assert_eq!(refresh.sub, Uuid { value: 5 });
    assert_eq!((refresh.iat, refresh.exp), (1_000, 1_120));
    assert_eq!(refresh.token_type, "refresh");
}

#[test]
fn hashing_succeeds_for_any_short_password() {
    for p in ["", "x", "пароль со словами", "a much longer passphrase of several words"] {
        let h = password_hash(p).unwrap();
        assert_eq!(password_verify(p, &h), Ok(true));
        assert!(h.starts_with("$argon2id$"));
    }
}

#[test]
fn confirmation_decided_in_order() {
    let mut stored = UserDB::default();
    stored.email = "a@b.ru".to_string();
    stored.email_code = Some("c0de".to_string());
    let e = Auth::<NoMail>::confirm_registration("", "", Err(RepositoryError::NotFoundRow)).unwrap_err();
    assert_eq!(transport(e).1, ErrMsg::EmailNotBeEmpty.to_string());
    let e = Auth::<NoMail>::confirm_registration("a@b.ru", "", Ok(stored.clone())).unwrap_err();
    assert_eq!(transport(e).1, ErrMsg::VerifyCodeNotBeEmpty.to_string());
    let e = Auth::<NoMail>::confirm_registration("nope", "c0de", Ok(stored.clone())).unwrap_err();
    assert_eq!(transport(e).1, ErrMsg::EmailNotCorrect.to_string());
    let e = Auth::<NoMail>::confirm_registration("a@b.ru", "c0de", Err(RepositoryError::NotFoundRow)).unwrap_err();
    assert_eq!(transport(e), (404, ErrMsg::NotFoundItem.to_string(), None));
    let e = Auth::<NoMail>::confirm_registration("a@b.ru", "c0de", Err(RepositoryError::FailedToQuery("down".to_string())))
        .unwrap_err();
    assert!(matches!(e, UseCaseError::Common(m) if m == "failed to query: down"));
    let e = Auth::<NoMail>::confirm_registration("a@b.ru", "other", Ok(stored.clone())).unwrap_err();
    assert_eq!(transport(e).1, ErrMsg::NotCorrectVerifyEmailCode.to_string());
    let u = Auth::<NoMail>::confirm_registration("a@b.ru", "c0de", Ok(stored.clone())).unwrap();
    assert!(u.email_code.is_none());
    let e = Auth::<NoMail>::confirm_registration("a@b.ru", "c0de", Ok(u)).unwrap_err();
    assert_eq!(transport(e).1, ErrMsg::EmailAlreadyConfirm.to_string());
}
