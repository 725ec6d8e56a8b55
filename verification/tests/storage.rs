use mkk_basis::adapter::db::models::TaskData;
use mkk_basis::adapter::db::postgres::tables::task_comments::TaskComments;
use mkk_basis::adapter::db::postgres::tables::task_histories::TaskHistories;
use mkk_basis::adapter::db::postgres::tables::tasks::{Status, Tasks};
use mkk_basis::adapter::db::postgres::tables::team_members::TeamMembers;
use mkk_basis::adapter::db::postgres::tables::teams::Teams;
use mkk_basis::adapter::db::postgres::tables::users::{Role, Users};
use mkk_basis::adapter::db::postgres::transactor::IsolationLevel;
use mkk_basis::adapter::db::postgres::Postgres;
use mkk_basis::adapter::db::traits::NameAndFields;
use mkk_basis::adapter::db::{expect_one_row, RepositoryError};
use mkk_basis::types::Uuid;

const TASK_FIELDS: &str = "task_id,name,description,created_by,team_id,assignee_id,status::text as status,created_at,updated_at";

#[test]
fn task_list_query_with_every_filter_and_page() {
    let tasks = Tasks::new();
    let q = tasks.list_query(TaskData {
        limit: 10,
        offset: 20,
        team_id: Some(Uuid { value: 1 }),
        assignee_id: Some(Uuid { value: 2 }),
        status: Some("todo".to_string()),
    });
    assert_eq!(
        q.query_common,
        format!("SELECT {TASK_FIELDS} FROM tasks WHERE team_id=$1::uuid AND assignee_id=$2::uuid AND status=$3::task_status_enum LIMIT $4::bigint OFFSET $5::bigint")
    );
    assert_eq!(
        q.query_count,
        "SELECT COUNT(*) as count FROM tasks WHERE team_id=$1::uuid AND assignee_id=$2::uuid AND status=$3::task_status_enum"
    );
    assert_eq!(
        q.count_params,
        vec![
            "00000000-0000-0000-0000-000000000001".to_string(),
            "00000000-0000-0000-0000-000000000002".to_string(),
            "todo".to_string(),
        ]
    );
    assert_eq!(q.common_params.len(), 5);
    assert_eq!(q.common_params[3], "10");
    assert_eq!(q.common_params[4], "20");
}

#[test]
fn task_list_query_drops_unknown_status_and_negative_page() {
    let tasks = Tasks::new();
    let q = tasks.list_query(TaskData {
        limit: -1,
        offset: 5,
        team_id: None,
        assignee_id: None,
        status: Some("archived".to_string()),
    });
    assert_eq!(q.query_common, format!("SELECT {TASK_FIELDS} FROM tasks OFFSET $1::bigint"));
    assert_eq!(q.query_count, "SELECT COUNT(*) as count FROM tasks");
    assert!(q.count_params.is_empty());
    assert_eq!(q.common_params, vec!["5".to_string()]);
}

#[test]
fn task_list_query_only_status() {
    let q = Tasks::new().list_query(TaskData {
        limit: 0,
        offset: -3,
        team_id: None,
        assignee_id: None,
        status: Some("cancelled".to_string()),
    });
    assert_eq!(
        q.query_common,
        format!("SELECT {TASK_FIELDS} FROM tasks WHERE status=$1::task_status_enum LIMIT $2::bigint")
    );
    assert_eq!(q.common_params, vec!["cancelled".to_string(), "0".to_string()]);
}

#[test]
fn task_comment_list_query() {
    let c = TaskComments::new();
    let task = Uuid { value: 0x0123456789abcdef0123456789abcdef };
    let q = c.list_query(&task, 7, 14);
    assert_eq!(
        q.query_common,
        "SELECT task_comment_id,task_id,user_id,msg,created_at,updated_at FROM task_comments WHERE task_id=$1::uuid ORDER BY created_at DESC LIMIT $2::bigint OFFSET $3::bigint"
    );
    assert_eq!(
        q.query_count,
        "SELECT COUNT(*) as count FROM task_comments WHERE task_id=$1::uuid"
    );
    assert_eq!(q.count_params, vec!["01234567-89ab-cdef-0123-456789abcdef".to_string()]);
    assert_eq!(
        q.common_params,
        vec!["01234567-89ab-cdef-0123-456789abcdef".to_string(), "7".to_string(), "14".to_string()]
    );
}

#[test]
fn page_queries_number_their_placeholders() {
    let q = Users::new().list_query(10, 0);
    assert_eq!(
        q.select,
        "SELECT user_id,email,password,name,email_code,avatar,role::text as role,created_at,updated_at FROM users ORDER BY created_at DESC LIMIT $1 OFFSET $2"
    );
    assert_eq!(q.binds, vec![10, 0]);
    assert_eq!(q.count, "SELECT COUNT(*) FROM users");

    let q = Teams::new().list_query(-1, 3);
    assert_eq!(
        q.select,
        "SELECT team_id,name,created_by,created_at,updated_at FROM teams ORDER BY created_at DESC OFFSET $1"
    );
    assert_eq!(q.binds, vec![3]);

    let q = TaskHistories::new().list_query(-1, -1);
    assert_eq!(
        q.select,
        "SELECT task_history_id,task_id,user_id,msg,created_at FROM task_histories ORDER BY created_at DESC"
    );
    assert!(q.binds.is_empty());
    assert_eq!(q.count, "SELECT COUNT(*) FROM task_histories");
}

#[test]
fn single_row_statements() {
    let users = Users::new();
    assert_eq!(
        users.by_email_query(),
        "SELECT user_id,email,password,name,email_code,avatar,role::text as role,created_at,updated_at FROM users WHERE email=$1"
    );
    assert_eq!(
        users.create_query(),
        "INSERT INTO users (email, password, name, email_code, avatar, role) VALUES ($1,$2,$3,$4,$5,$6::user_role_enum) RETURNING user_id"
    );
    assert_eq!(users.delete_query(), "DELETE FROM users WHERE user_id=$1");
    let members = TeamMembers::new();
    assert_eq!(
        members.one_query(),
        "SELECT team_id,user_id,created_at FROM team_members WHERE team_id=$1 AND user_id=$2"
    );
    assert_eq!(members.create_query(), "INSERT INTO team_members (team_id, user_id) VALUES ($1,$2)");
    assert_eq!(
        members.all_query(),
        "SELECT team_id,user_id,created_at FROM team_members ORDER BY created_at DESC"
    );
    assert_eq!(Teams::new().update_query(), "UPDATE teams SET name=$1 WHERE team_id=$2");
    assert_eq!(
        TaskHistories::new().by_task_id_query(),
        "SELECT task_history_id,task_id,user_id,msg,created_at FROM task_histories WHERE task_id=$1 ORDER BY created_at DESC"
    );
    let tasks = Tasks::new();
    assert_eq!(tasks.one_query(), format!("SELECT {TASK_FIELDS} FROM tasks WHERE task_id=$1"));
    assert_eq!(
        tasks.update_query(),
        "UPDATE tasks SET name=$1, description=$2, created_by=$3, team_id=$4, assignee_id=$5, status=$6::task_status_enum WHERE task_id=$7"
    );
    assert_eq!(tasks.table_basic().count_query(None), "SELECT COUNT(*) FROM tasks");
    assert_eq!(
        tasks.table_basic().count_query(Some("SELECT 1".to_string())),
        "SELECT 1"
    );
}

#[test]
fn names_and_fields() {
    let db = Postgres::new();
    assert_eq!(db.tbl_users.get_name(), "users");
    assert_eq!(db.tbl_team_members.get_fields(), &["team_id", "user_id", "created_at"]);
    assert_eq!(db.tbl_tasks.table_basic().name, "tasks");
    assert_eq!(db.tbl_task_comments.get_name(), "task_comments");
}

#[test]
fn statuses() {
    for (s, t) in [
        (Status::Start, "start"),
        (Status::Todo, "todo"),
        (Status::Done, "done"),
        (Status::Cancelled, "cancelled"),
    ] {
        assert_eq!(s.to_string(), t);
        assert!(Status::contains_value(t.to_string()));
    }
    let texts = [Status::Start, Status::Todo, Status::Done, Status::Cancelled].map(|s| s.to_string());
    for i in 0..4 {
        for j in 0..4 {
            assert_eq!(texts[i] == texts[j], i == j);
        }
    }
    assert!(!Status::contains_value("Todo".to_string()));
    assert!(!Status::contains_value(String::new()));
}

#[test]
fn roles() {
    let users = Users::new();
    assert_eq!(Role::Admin.to_string(), "admin");
    assert_eq!(Role::Moder.to_string(), "moder");
    assert_eq!(users.get_valid_role(&Some("null".to_string())), None);
    assert_eq!(users.get_valid_role(&Some("admin".to_string())), Some("admin".to_string()));
    assert_eq!(users.get_valid_role(&None), None);
}

#[test]
fn isolation_levels() {
    assert_eq!(IsolationLevel::ReadCommitted.begin_statement(), "BEGIN ISOLATION LEVEL READ COMMITTED");
    assert_eq!(IsolationLevel::Serializable.as_sql(), " ISOLATION LEVEL SERIALIZABLE");
    assert_eq!(IsolationLevel::Unspecified.begin_statement(), "BEGIN");
}

#[test]
fn repository_errors() {
    assert_eq!(RepositoryError::FailedToQuery("boom".to_string()).to_string(), "failed to query: boom");
    assert_eq!(RepositoryError::NotFoundRow.to_string(), "not found row");
    assert_eq!(RepositoryError::ExpectedOneRow(3).to_string(), "expected one row, but has 3");
    assert!(expect_one_row(1).is_ok());
    assert!(matches!(expect_one_row(0), Err(RepositoryError::ExpectedOneRow(0))));
    assert!(matches!(expect_one_row(2), Err(RepositoryError::ExpectedOneRow(2))));
}

#[test]
fn task_list_query_ignores_unknown_status() {
    let tasks = Tasks::new();
    let data = |status: Option<String>| TaskData {
        limit: 10,
        offset: 20,
        team_id: Some(Uuid { value: 3 }),
        assignee_id: None,
        status,
    };
    let with = tasks.list_query(data(Some("Done".to_string())));
    let without = tasks.list_query(data(None));
    assert_eq!(with.query_common, without.query_common);
    assert_eq!(with.query_count, without.query_count);
    assert_eq!(with.common_params, without.common_params);
    assert_eq!(with.count_params, without.count_params);
    assert!(!with.query_common.contains("Done") && !with.common_params.contains(&"Done".to_string()));
}
