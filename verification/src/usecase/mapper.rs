//! Moving records between their stored form and the form the use cases see. Each field
//! moves unchanged.
use vstd::prelude::*;
use super::models::{
    Task, TaskComment, TaskData, TaskHistory, Team, TeamMember, User,
};
use crate::adapter::db::models::{
    Task as DBTask, TaskComment as DBTaskComment, TaskData as DBTaskData,
    TaskHistory as DBTaskHistory, Team as DBTeam, TeamMember as DBTeamMember, User as DBUser,
};

verus! {

pub fn task_db_to_task_uc(item: DBTask) -> (r: Task)
    ensures
        r.task_id == item.task_id && r.name == item.name && r.description == item.description
            && r.created_by == item.created_by && r.team_id == item.team_id && r.assignee_id
            == item.assignee_id && r.status == item.status && r.created_at == item.created_at
            && r.updated_at == item.updated_at,
{
    Task {
        task_id: item.task_id,
        name: item.name,
        description: item.description,
        created_by: item.created_by,
        team_id: item.team_id,
        assignee_id: item.assignee_id,
        status: item.status,
        created_at: item.created_at,
        updated_at: item.updated_at,
    }
}

pub fn task_uc_to_task_db(item: Task) -> (r: DBTask)
    ensures
        r.task_id == item.task_id && r.name == item.name && r.description == item.description
            && r.created_by == item.created_by && r.team_id == item.team_id && r.assignee_id
            == item.assignee_id && r.status == item.status && r.created_at == item.created_at
            && r.updated_at == item.updated_at,
{
    DBTask {
        task_id: item.task_id,
        name: item.name,
        description: item.description,
        created_by: item.created_by,
        team_id: item.team_id,
        assignee_id: item.assignee_id,
        status: item.status,
        created_at: item.created_at,
        updated_at: item.updated_at,
    }
}

pub fn task_history_db_to_task_history_uc(item: DBTaskHistory) -> (r: TaskHistory)
    ensures
        r.task_history_id == item.task_history_id && r.task_id == item.task_id && r.user_id
            == item.user_id && r.msg == item.msg && r.created_at == item.created_at,
{
    TaskHistory {
        task_history_id: item.task_history_id,
        task_id: item.task_id,
        user_id: item.user_id,
        msg: item.msg,
        created_at: item.created_at,
    }
}

pub fn task_history_uc_to_task_history_db(item: TaskHistory) -> (r: DBTaskHistory)
    ensures
        r.task_history_id == item.task_history_id && r.task_id == item.task_id && r.user_id
            == item.user_id && r.msg == item.msg && r.created_at == item.created_at,
{
    DBTaskHistory {
        task_history_id: item.task_history_id,
        task_id: item.task_id,
        user_id: item.user_id,
        msg: item.msg,
        created_at: item.created_at,
    }
}

pub fn team_db_to_team_uc(item: DBTeam) -> (r: Team)
    ensures
        r.team_id == item.team_id && r.name == item.name && r.created_by == item.created_by
            && r.created_at == item.created_at && r.updated_at == item.updated_at,
{
    Team {
        team_id: item.team_id,
        name: item.name,
        created_by: item.created_by,
        created_at: item.created_at,
        updated_at: item.updated_at,
    }
}

pub fn team_uc_to_team_db(item: Team) -> (r: DBTeam)
    ensures
        r.team_id == item.team_id && r.name == item.name && r.created_by == item.created_by
            && r.created_at == item.created_at && r.updated_at == item.updated_at,
{
    DBTeam {
        team_id: item.team_id,
        name: item.name,
        created_by: item.created_by,
        created_at: item.created_at,
        updated_at: item.updated_at,
    }
}

pub fn team_member_uc_to_team_member_db(item: TeamMember) -> (r: DBTeamMember)
    ensures
        r.team_id == item.team_id && r.user_id == item.user_id && r.created_at
            == item.created_at,
{
    DBTeamMember { team_id: item.team_id, user_id: item.user_id, created_at: item.created_at }
}

pub fn user_uc_to_user_db(item: User) -> (r: DBUser)
    ensures
        r.user_id == item.user_id && r.email == item.email && r.password == item.password
            && r.name == item.name && r.email_code == item.email_code && r.avatar
            == item.avatar && r.role == item.role && r.created_at == item.created_at
            && r.updated_at == item.updated_at,
{
    DBUser {
        user_id: item.user_id,
        email: item.email,
        password: item.password,
        name: item.name,
        email_code: item.email_code,
        avatar: item.avatar,
        role: item.role,
        created_at: item.created_at,
        updated_at: item.updated_at,
    }
}

pub fn user_db_to_user_uc(item: DBUser) -> (r: User)
    ensures
        r.user_id == item.user_id && r.email == item.email && r.password == item.password
            && r.name == item.name && r.email_code == item.email_code && r.avatar
            == item.avatar && r.role == item.role && r.created_at == item.created_at
            && r.updated_at == item.updated_at,
{
    User {
        user_id: item.user_id,
        email: item.email,
        password: item.password,
        name: item.name,
        email_code: item.email_code,
        avatar: item.avatar,
        role: item.role,
        created_at: item.created_at,
        updated_at: item.updated_at,
    }
}

pub fn task_comment_db_to_task_comment_uc(item: DBTaskComment) -> (r: TaskComment)
    ensures
        r.task_comment_id == item.task_comment_id && r.task_id == item.task_id && r.user_id
            == item.user_id && r.msg == item.msg && r.created_at == item.created_at
            && r.updated_at == item.updated_at,
{
    TaskComment {
        task_comment_id: item.task_comment_id,
        task_id: item.task_id,
        user_id: item.user_id,
        msg: item.msg,
        created_at: item.created_at,
        updated_at: item.updated_at,
    }
}

pub fn task_comment_uc_to_task_comment_db(item: TaskComment) -> (r: DBTaskComment)
    ensures
        r.task_comment_id == item.task_comment_id && r.task_id == item.task_id && r.user_id
            == item.user_id && r.msg == item.msg && r.created_at == item.created_at
            && r.updated_at == item.updated_at,
{
    DBTaskComment {
        task_comment_id: item.task_comment_id,
        task_id: item.task_id,
        user_id: item.user_id,
        msg: item.msg,
        created_at: item.created_at,
        updated_at: item.updated_at,
    }
}

pub fn task_data_uc_to_task_data_db(item: TaskData) -> (r: DBTaskData)
    ensures
        r.limit == item.limit && r.offset == item.offset && r.team_id == item.team_id
            && r.assignee_id == item.assignee_id && r.status == item.status,
{
    DBTaskData {
        limit: item.limit,
        offset: item.offset,
        team_id: item.team_id,
        assignee_id: item.assignee_id,
        status: item.status,
    }
}

} // verus!

verus! {

/// Each item of a list converted by `f`, in order.
pub fn map_list<A, B, F: Fn(A) -> B>(items: Vec<A>, f: F) -> (r: Vec<B>)
    requires
        forall|i: int| 0 <= i < items@.len() ==> f.requires((#[trigger] items@[i],)),
    ensures
        r@.len() == items@.len(),
        forall|i: int| 0 <= i < items@.len() ==> f.ensures((items@[i],), #[trigger] r@[i]),
{
    let ghost given = items@;
    let mut items = items;
    let mut r: Vec<B> = Vec::new();
    while items.len() > 0
        invariant
            r@.len() + items@.len() == given.len(),
            items@ == given.subrange(r@.len() as int, given.len() as int),
            forall|i: int| 0 <= i < given.len() ==> f.requires((#[trigger] given[i],)),
            forall|i: int| 0 <= i < r@.len() ==> f.ensures((given[i],), #[trigger] r@[i]),
        decreases items@.len(),
    {
        let ghost k = r@.len();
        let item = items.remove(0);
        assert(item == given[k as int]);
        let b = f(item);
        r.push(b);
        assert(items@ =~= given.subrange(r@.len() as int, given.len() as int));
    }
    r
}

} // verus!
