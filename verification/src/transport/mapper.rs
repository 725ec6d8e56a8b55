//! Moving records between the HTTP form and the use cases: identifiers and instants are
//! written as text, and identifiers in requests are read back from text.
use vstd::prelude::*;
use crate::types::{chrono_utc_text, uuid_parse, uuid_text, DateTime, Uuid};
use crate::usecase::models::{
    Task as UCTask, TaskComment as UCTaskComment, TaskData, TaskHistory as UCTaskHistory,
    Team as UCTeam, User as UCUser, UserCreate, UserUpdate,
};
use super::models::{
    RequestTask, RequestTaskData, RequestTeam, RequestUserCreate, RequestUserUpdate, Task,
    TaskComment, TaskHistory, Team, User,
};

verus! {

/// The text of an instant.
pub open spec fn time_text(t: DateTime) -> Seq<char> {
    chrono_utc_text(t.spec_secs(), t.spec_nanos())
}

pub fn team_uc_to_team_tr(item: UCTeam) -> (r: Team)
    ensures
        r.team_id@ == uuid_text(item.team_id.value),
        r.name == item.name,
        r.created_by@ == uuid_text(item.created_by.value),
        r.created_at@ == time_text(item.created_at),
        r.updated_at@ == time_text(item.updated_at),
{
    Team {
        team_id: item.team_id.to_string(),
        name: item.name,
        created_by: item.created_by.to_string(),
        created_at: item.created_at.to_string(),
        updated_at: item.updated_at.to_string(),
    }
}

/// The text of an optional identifier.
pub open spec fn opt_uuid_text(u: Option<Uuid>) -> Option<Seq<char>> {
    match u {
        Some(v) => Some(uuid_text(v.value)),
        None => None,
    }
}

fn opt_uuid_to_string(u: Option<Uuid>) -> (r: Option<String>)
    ensures
        crate::text::opt_view(r) == opt_uuid_text(u),
{
    match u {
        Some(v) => Some(v.to_string()),
        None => None,
    }
}

pub fn task_uc_to_task_tr(item: UCTask) -> (r: Task)
    ensures
        r.task_id@ == uuid_text(item.task_id.value),
        r.name == item.name,
        r.description == item.description,
        r.created_by@ == uuid_text(item.created_by.value),
        r.team_id@ == uuid_text(item.team_id.value),
        crate::text::opt_view(r.assignee_id) == opt_uuid_text(item.assignee_id),
        r.status == item.status,
        r.created_at@ == time_text(item.created_at),
        r.updated_at@ == time_text(item.updated_at),
{
    Task {
        task_id: item.task_id.to_string(),
        name: item.name,
        description: item.description,
        created_by: item.created_by.to_string(),
        team_id: item.team_id.to_string(),
        assignee_id: opt_uuid_to_string(item.assignee_id),
        status: item.status,
        created_at: item.created_at.to_string(),
        updated_at: item.updated_at.to_string(),
    }
}

/// A team from a request: only the name is taken, the id and the author are nil (the
/// author is set from the profile), the instants at the epoch.
pub fn team_tr_to_team_uc(req: RequestTeam) -> (r: UCTeam)
    ensures
        r.team_id.value == 0,
        r.name == req.name,
        r.created_by.value == 0,
        r.created_at.spec_secs() == 0 && r.created_at.spec_nanos() == 0,
        r.updated_at.spec_secs() == 0 && r.updated_at.spec_nanos() == 0,
{
    UCTeam {
        team_id: Uuid::nil(),
        name: req.name,
        created_by: Uuid::nil(),
        created_at: DateTime::default(),
        updated_at: DateTime::default(),
    }
}

/// Reads an optional identifier; the text of the first error.
fn parse_opt_uuid(s: &Option<String>) -> (r: Result<Option<Uuid>, String>)
    ensures
        match s {
            None => r == Ok::<Option<Uuid>, String>(None),
            Some(t) => match uuid_parse(t@) {
                Some(v) => r == Ok::<Option<Uuid>, String>(Some(Uuid { value: v })),
                None => r is Err,
            },
        },
{
    match s {
        Some(t) => match Uuid::parse_str(t.as_str()) {
            Ok(u) => Ok(Some(u)),
            Err(e) => Err(e),
        },
        None => Ok(None),
    }
}

/// A task from a request: the author, the team and the assignee are read as identifiers
/// (an error where one is not one); the id is nil, the instants at the epoch.
pub fn task_tr_to_task_uc(req: RequestTask) -> (r: Result<UCTask, String>)
    ensures
        r is Ok <==> (uuid_parse(req.created_by@) is Some && uuid_parse(req.team_id@) is Some
            && (req.assignee_id matches Some(a) ==> uuid_parse(a@) is Some)),
        r matches Ok(t) ==> {
            &&& t.task_id.value == 0
            &&& t.name == req.name
            &&& t.description == req.description
            &&& uuid_parse(req.created_by@) == Some(t.created_by.value)
            &&& uuid_parse(req.team_id@) == Some(t.team_id.value)
            &&& match req.assignee_id {
                Some(a) => t.assignee_id matches Some(u) && uuid_parse(a@) == Some(u.value),
                None => t.assignee_id is None,
            }
            &&& t.status == req.status
            &&& t.created_at.spec_secs() == 0 && t.created_at.spec_nanos() == 0
            &&& t.updated_at.spec_secs() == 0 && t.updated_at.spec_nanos() == 0
        },
{
    let created_by_parsed = Uuid::parse_str(req.created_by.as_str())?;
    let team_id_parsed = Uuid::parse_str(req.team_id.as_str())?;
    let assignee_id_parsed = parse_opt_uuid(&req.assignee_id)?;
    Ok(
        UCTask {
            task_id: Uuid::nil(),
            name: req.name,
            description: req.description,
            created_by: created_by_parsed,
            team_id: team_id_parsed,
            assignee_id: assignee_id_parsed,
            status: req.status,
            created_at: DateTime::default(),
            updated_at: DateTime::default(),
        },
    )
}

/// A task listing from a request: the team and the assignee are read as identifiers (an
/// error where one is not one); page and status pass unchanged.
pub fn task_data_tr_to_task_data_uc(req: RequestTaskData) -> (r: Result<TaskData, String>)
    ensures
        r is Ok <==> ((req.team_id matches Some(t) ==> uuid_parse(t@) is Some) && (
        req.assignee_id matches Some(a) ==> uuid_parse(a@) is Some)),
        r matches Ok(d) ==> {
            &&& d.limit == req.limit && d.offset == req.offset && d.status == req.status
            &&& match req.team_id {
                Some(t) => d.team_id matches Some(u) && uuid_parse(t@) == Some(u.value),
                None => d.team_id is None,
            }
            &&& match req.assignee_id {
                Some(a) => d.assignee_id matches Some(u) && uuid_parse(a@) == Some(u.value),
                None => d.assignee_id is None,
            }
        },
{
    let team_id_parsed = parse_opt_uuid(&req.team_id)?;
    let assignee_id_parsed = parse_opt_uuid(&req.assignee_id)?;
    Ok(
        TaskData {
            limit: req.limit,
            offset: req.offset,
            team_id: team_id_parsed,
            assignee_id: assignee_id_parsed,
            status: req.status,
        },
    )
}

pub fn task_history_uc_to_task_history_tr(item: UCTaskHistory) -> (r: TaskHistory)
    ensures
        r.task_history_id@ == uuid_text(item.task_history_id.value),
        r.task_id@ == uuid_text(item.task_id.value),
        r.user_id@ == uuid_text(item.user_id.value),
        r.msg == item.msg,
        r.created_at@ == time_text(item.created_at),
{
    TaskHistory {
        task_history_id: item.task_history_id.to_string(),
        task_id: item.task_id.to_string(),
        user_id: item.user_id.to_string(),
        msg: item.msg,
        created_at: item.created_at.to_string(),
    }
}

/// A user for the client: never the password nor the confirmation code.
pub fn user_uc_to_user_tr(item: UCUser) -> (r: User)
    ensures
        r.user_id@ == uuid_text(item.user_id.value),
        r.name == item.name,
        r.email == item.email,
        r.avatar == item.avatar,
        r.role == item.role,
        r.created_at@ == time_text(item.created_at),
        r.updated_at@ == time_text(item.updated_at),
{
    User {
        user_id: item.user_id.to_string(),
        name: item.name,
        email: item.email,
        avatar: item.avatar,
        role: item.role,
        created_at: item.created_at.to_string(),
        updated_at: item.updated_at.to_string(),
    }
}

/// A user to create from a request; no confirmation code.
pub fn user_create_tr_to_user_create_uc(item: RequestUserCreate) -> (r: UserCreate)
    ensures
        r.email == item.email,
        r.password == item.password,
        r.name == item.name,
        r.email_code is None,
        r.role == item.role,
        r.avatar == item.avatar,
{
    UserCreate {
        email: item.email,
        password: item.password,
        name: item.name,
        email_code: None,
        role: item.role,
        avatar: item.avatar,
    }
}

/// A change of a user from a request; the id is nil (set from the path) and no
/// confirmation code is changed.
pub fn user_tr_update_to_user_uc_update(item: RequestUserUpdate) -> (r: UserUpdate)
    ensures
        r.user_id.value == 0,
        r.email == item.email,
        r.password == item.password,
        r.name == item.name,
        r.email_code is None,
        r.role == item.role,
        r.avatar == item.avatar,
        r.is_remove_avatar == item.is_remove_avatar,
{
    UserUpdate {
        user_id: Default::default(),
        email: item.email,
        password: item.password,
        name: item.name,
        email_code: None,
        role: item.role,
        avatar: item.avatar,
        is_remove_avatar: item.is_remove_avatar,
    }
}

/// A comment from a request: the message, on the task of the path, by the profile.
pub fn task_comment_tr_to_task_comment_uc(msg: String, task_id: Uuid, user_id: Uuid) -> (r: UCTaskComment)
    ensures
        r.task_comment_id.value == 0,
        r.task_id == task_id,
        r.user_id == user_id,
        r.msg == msg,
        r.created_at.spec_secs() == 0 && r.created_at.spec_nanos() == 0,
        r.updated_at.spec_secs() == 0 && r.updated_at.spec_nanos() == 0,
{
    UCTaskComment {
        task_comment_id: Default::default(),
        task_id,
        user_id,
        msg,
        created_at: DateTime::default(),
        updated_at: DateTime::default(),
    }
}

pub fn task_comment_uc_to_task_comment_tr(item: UCTaskComment) -> (r: TaskComment)
    ensures
        r.task_comment_id@ == uuid_text(item.task_comment_id.value),
        r.task_id@ == uuid_text(item.task_id.value),
        r.user_id@ == uuid_text(item.user_id.value),
        r.msg == item.msg,
        r.created_at@ == time_text(item.created_at),
        r.updated_at@ == time_text(item.updated_at),
{
    TaskComment {
        task_comment_id: item.task_comment_id.to_string(),
        task_id: item.task_id.to_string(),
        user_id: item.user_id.to_string(),
        msg: item.msg,
        created_at: item.created_at.to_string(),
        updated_at: item.updated_at.to_string(),
    }
}

} // verus!
