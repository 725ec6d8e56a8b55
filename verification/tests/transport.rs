use mkk_basis::adapter::jwt::AccessClaims;
use mkk_basis::err_msg::ErrMsg;
use mkk_basis::transport::http_server::handlers::auth::{
    login_answer, new_cookie_for_access, new_cookie_for_refresh, token_from_cookie, LoginAnswer,
};
use mkk_basis::transport::http_server::handlers::users::{
    get_string_from_map, get_string_option_from_map, upload_file_path, FormFields, Handlers,
    UploadErr,
};
use mkk_basis::transport::http_server::handlers::{list_total, HandlerError};
use mkk_basis::transport::http_server::middleware::auth::{access_token, auth_user};
use mkk_basis::transport::mapper::{
    task_comment_tr_to_task_comment_uc, task_data_tr_to_task_data_uc, task_tr_to_task_uc,
    task_uc_to_task_tr, team_tr_to_team_uc, team_uc_to_team_tr, user_create_tr_to_user_create_uc,
    user_tr_update_to_user_uc_update, user_uc_to_user_tr,
};
use mkk_basis::transport::models::{
    RequestTask, RequestTaskData, RequestTeam, RequestUserCreate, RequestUserUpdate,
};
use mkk_basis::types::{DateTime, Uuid};
use mkk_basis::usecase::models::{Task, Team, User};
use mkk_basis::usecase::UseCaseError;

struct NoMail;

#[test]
fn cookies() {
    assert_eq!(
        new_cookie_for_access("tok".to_string()),
        "access_token=tok; HttpOnly; Secure; SameSite=Lax; Path=/api; Max-Age=1200"
    );
    assert_eq!(
        new_cookie_for_refresh("r.e.f".to_string()),
        "refresh_token=r.e.f; HttpOnly; Secure; SameSite=Strict; Path=/api/v1/refresh_tokens; Max-Age=2592000"
    );
}

#[test]
fn token_inside_cookie() {
    assert_eq!(token_from_cookie("access_token=abc.def.ghi").as_deref(), Some("abc.def.ghi"));
    assert_eq!(token_from_cookie("access_token=").as_deref(), Some(""));
    assert_eq!(token_from_cookie("access_token=a=b").as_deref(), Some("a"));
    assert_eq!(token_from_cookie("no separator"), None);
    assert_eq!(access_token("refresh_token=xyz"), Ok("xyz".to_string()));
    assert_eq!(access_token("garbage"), Err(401));
}

#[test]
fn access_claims_only() {
    let claims = AccessClaims {
        sub: Uuid { value: 11 },
        exp: 100,
        iat: 40,
        token_type: "access".to_string(),
        role: Some("admin".to_string()),
    };
    let u = auth_user(claims).unwrap();
    assert_eq!(u.user_id, Uuid { value: 11 });
    assert_eq!(u.role.as_deref(), Some("admin"));
    let claims = AccessClaims {
        sub: Uuid { value: 11 },
        exp: 100,
        iat: 40,
        token_type: "refresh".to_string(),
        role: None,
    };
    assert_eq!(auth_user(claims).err(), Some(401));
}

#[test]
fn handler_error_responses() {
    let r = HandlerError::new(UseCaseError::Common("db down".to_string()), "src/x.rs:10")
        .into_response();
    assert_eq!(r.status_code, 500);
    assert_eq!(r.msg, "server internal error");
    assert_eq!(r.log_line.as_deref(), Some("src/x.rs:10 (500) -> db down"));

    let r = HandlerError::new(
        UseCaseError::Transport {
            status_code: 400,
            public_err: "bad".to_string(),
            internal_err: Some("why".to_string()),
        },
        "h.rs:1",
    )
    .into_response();
    assert_eq!((r.status_code, r.msg.as_str()), (400, "bad"));
    assert_eq!(r.log_line.as_deref(), Some("h.rs:1 (400) -> why"));

    let r = HandlerError::new(
        UseCaseError::Transport { status_code: 403, public_err: "no".to_string(), internal_err: None },
        "h.rs:2",
    )
    .into_response();
    assert_eq!(r.log_line, None);

    let r = HandlerError::new(UseCaseError::UserNotExists, "h.rs:3").into_response();
    assert_eq!(r.status_code, 404);
    assert_eq!(r.msg, ErrMsg::NotFoundUser.to_string());
    assert_eq!(r.log_line, None);
    assert_eq!(list_total(7), 7);
    assert_eq!(list_total(-1), u32::MAX);
}

#[test]
fn form_fields() {
    let mut f = FormFields::new();
    f.insert("email".to_string(), b"a@b.ru".to_vec());
    f.insert("name".to_string(), "Иван".as_bytes().to_vec());
    f.insert("bad".to_string(), vec![0xff, 0xfe]);
    f.insert("email".to_string(), b"c@d.ru".to_vec());
    assert_eq!(get_string_from_map(&f, "email"), "c@d.ru");
    assert_eq!(get_string_option_from_map(&f, "name").as_deref(), Some("Иван"));
    assert_eq!(get_string_option_from_map(&f, "bad"), None);
    assert_eq!(get_string_from_map(&f, "bad"), "");
    assert_eq!(get_string_option_from_map(&f, "missing"), None);
    assert_eq!(f.get("bad"), Some(&vec![0xff, 0xfe]));
}

#[test]
fn user_requests_from_forms() {
    let mut f = FormFields::new();
    f.insert("email".to_string(), b"a@b.ru".to_vec());
    f.insert("role".to_string(), b"moder".to_vec());
    f.insert("is_remove_avatar".to_string(), b"TRUE".to_vec());
    let c = Handlers::<NoMail>::user_create_request(&f);
    assert_eq!(c.email, "a@b.ru");
    assert_eq!(c.password, "");
    assert_eq!(c.name, None);
    assert_eq!(c.role.as_deref(), Some("moder"));
    let u = Handlers::<NoMail>::user_update_request(&f);
    assert!(u.is_remove_avatar);
    assert_eq!(u.email.as_deref(), Some("a@b.ru"));
    assert_eq!(u.password, None);
    let mut g = FormFields::new();
    g.insert("is_remove_avatar".to_string(), b"yes".to_vec());
    assert!(!Handlers::<NoMail>::user_update_request(&g).is_remove_avatar);
}

#[test]
fn uploads() {
    assert_eq!(upload_file_path(1700000000, "aB3dE", "png"), "./web/uploaded/1700000000_aB3dE.png");
    let png = vec![0x89, b'P', b'N', b'G', 0x0d, 0x0a, 0x1a, 0x0a, 0, 0, 0, 0];
    let path = Handlers::<NoMail>::upload_target(&png).unwrap();
    assert!(path.starts_with("./web/uploaded/"));
    assert!(path.ends_with(".png"));
    let stem = &path["./web/uploaded/".len()..path.len() - 4];
    let (time, suffix) = stem.split_once('_').unwrap();
    assert!(time.parse::<i64>().is_ok());
    assert_eq!(suffix.len(), 5);
    assert!(suffix.chars().all(|c| c.is_ascii_alphanumeric()));
    let err = Handlers::<NoMail>::upload_target(&b"plain text".to_vec()).unwrap_err();
    assert_eq!((err.status_code, err.msg.as_str()), (500, ""));
    let e = UploadErr::write_failed();
    assert_eq!((e.status_code, e.msg), (400, ErrMsg::BadFileData.to_string()));
    assert_eq!(UploadErr::create_failed().status_code, 500);
}

const A: &str = "01234567-89ab-cdef-0123-456789abcdef";

#[test]
fn tasks_in_and_out() {
    let req = RequestTask {
        name: "t".to_string(),
        description: Some("d".to_string()),
        created_by: A.to_string(),
        team_id: "00000000-0000-0000-0000-000000000002".to_string(),
        assignee_id: Some("0123456789ABCDEF0123456789ABCDEF".to_string()),
        status: "todo".to_string(),
    };
    let t = task_tr_to_task_uc(req).unwrap();
    assert_eq!(t.created_by, Uuid { value: 0x0123456789abcdef0123456789abcdef });
    assert_eq!(t.team_id, Uuid { value: 2 });
    assert_eq!(t.assignee_id, Some(Uuid { value: 0x0123456789abcdef0123456789abcdef }));
    assert_eq!(t.task_id, Uuid::nil());
    let out = task_uc_to_task_tr(t);
    assert_eq!(out.created_by, A);
    assert_eq!(out.assignee_id.as_deref(), Some(A));
    assert_eq!(out.task_id, "00000000-0000-0000-0000-000000000000");
    assert_eq!(out.created_at, "1970-01-01 00:00:00 UTC");

    let bad = RequestTask {
        name: "t".to_string(),
        description: None,
        created_by: "not a uuid".to_string(),
        team_id: A.to_string(),
        assignee_id: None,
        status: "todo".to_string(),
    };
    assert!(task_tr_to_task_uc(bad).is_err());
}

#[test]
fn task_listing_requests() {
    let d = task_data_tr_to_task_data_uc(RequestTaskData {
        limit: 5,
        offset: 0,
        team_id: Some(A.to_string()),
        assignee_id: None,
        status: Some("done".to_string()),
    })
    .unwrap();
    assert_eq!((d.limit, d.offset), (5, 0));
    assert_eq!(d.team_id, Some(Uuid { value: 0x0123456789abcdef0123456789abcdef }));
    assert_eq!(d.assignee_id, None);
    assert!(task_data_tr_to_task_data_uc(RequestTaskData {
        limit: 5,
        offset: 0,
        team_id: None,
        assignee_id: Some("zzz".to_string()),
        status: None,
    })
    .is_err());
}

#[test]
fn teams_users_comments() {
    let t = team_tr_to_team_uc(RequestTeam { name: "Core".to_string() });
    assert_eq!((t.name.as_str(), t.team_id, t.created_by), ("Core", Uuid::nil(), Uuid::nil()));
    let team = Team {
        team_id: Uuid { value: 1 },
        name: "Core".to_string(),
        created_by: Uuid { value: 2 },
        created_at: DateTime::from_timestamp(1431648000, 0).unwrap(),
        updated_at: DateTime::from_timestamp(1431648001, 500_000_000).unwrap(),
    };
    let out = team_uc_to_team_tr(team);
    assert_eq!(out.team_id, "00000000-0000-0000-0000-000000000001");
    assert_eq!(out.created_at, "2015-05-15 00:00:00 UTC");
    assert_eq!(out.updated_at, "2015-05-15 00:00:01.500 UTC");
    let user = User {
        user_id: Uuid { value: 3 },
        email: "a@b.ru".to_string(),
        password: "secret".to_string(),
        name: None,
        email_code: Some("code".to_string()),
        avatar: None,
        role: Some("admin".to_string()),
        created_at: DateTime::default(),
        updated_at: DateTime::default(),
    };
    let out = user_uc_to_user_tr(user);
    assert_eq!(out.email, "a@b.ru");
    assert_eq!(out.role.as_deref(), Some("admin"));
    let c = user_create_tr_to_user_create_uc(RequestUserCreate {
        email: "e".to_string(),
        password: "p".to_string(),
        name: Some("n".to_string()),
        role: None,
        avatar: Some("a".to_string()),
    });
    assert_eq!((c.email.as_str(), c.password.as_str()), ("e", "p"));
    assert_eq!(c.email_code, None);
    assert_eq!(c.avatar.as_deref(), Some("a"));
    let u = user_tr_update_to_user_uc_update(RequestUserUpdate {
        email: None,
        password: Some("p".to_string()),
        name: None,
        role: None,
        avatar: None,
        is_remove_avatar: true,
    });
    assert_eq!(u.user_id, Uuid::nil());
    assert!(u.is_remove_avatar);
    let cm = task_comment_tr_to_task_comment_uc("hi".to_string(), Uuid { value: 4 }, Uuid { value: 5 });
    assert_eq!((cm.msg.as_str(), cm.task_id, cm.user_id), ("hi", Uuid { value: 4 }, Uuid { value: 5 }));
    let _: Option<Task> = None;
}

impl mkk_basis::adapter::email::EmailSender for NoMail {
    fn send(&self, _to: &str, _subject: &str, _body: &str) -> Result<(), String> {
        Ok(())
    }
}

#[test]
fn login_answers() {
    match login_answer(Ok(("A".to_string(), "R".to_string())), "here") {
        LoginAnswer::Tokens { status_code, access_cookie, refresh_cookie } => {
            assert_eq!(status_code, 204);
            assert_eq!(access_cookie, new_cookie_for_access("A".to_string()));
            assert_eq!(refresh_cookie, new_cookie_for_refresh("R".to_string()));
        }
        _ => panic!("expected the cookies"),
    }
    assert!(matches!(login_answer(Err(UseCaseError::UserNotExists), "here"), LoginAnswer::Redirect(l) if l == "/"));
    match login_answer(Err(UseCaseError::Common("boom".to_string())), "here") {
        LoginAnswer::Failed(r) => {
            assert_eq!(r.status_code, 500);
            assert_eq!(r.msg, "server internal error");
            assert_eq!(r.log_line.as_deref(), Some("here (500) -> boom"));
        }
        _ => panic!("expected a failure"),
    }
}
