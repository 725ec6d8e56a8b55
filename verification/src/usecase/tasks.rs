//! Tasks: only members of a task's team may change it, and every change is recorded.
use vstd::prelude::*;
use vstd::string::*;
use crate::adapter::db::models::{Task as DBTask, TaskHistory as DBTaskHistory};
use crate::adapter::db::postgres::tables::task_histories::TaskHistories as DBTaskHistories;
use crate::adapter::db::postgres::tables::tasks::{Status as TaskStatus, Tasks as DBTasks};
use crate::adapter::db::postgres::tables::team_members::TeamMembers as DBTeamMembers;
use crate::adapter::db::RepositoryError;
use crate::err_msg::ErrMsg;
use crate::status;
use crate::types::{DateTime, Uuid};
use super::mapper::{
    map_list, task_db_to_task_uc, task_history_db_to_task_history_uc,
    task_history_uc_to_task_history_db,
};
use super::models::{Task, TaskHistory};
use super::{shown, UseCaseError, UseCaseErrorView};

verus! {

/// What a failed membership check answers: a missing membership is refused (`403`,
/// `NoAccessTeamMemberOnly`), any other failure is internal.
pub open spec fn access_error(e: RepositoryError) -> UseCaseErrorView {
    if e is NotFoundRow {
        shown(status::FORBIDDEN, ErrMsg::NoAccessTeamMemberOnly)
    } else {
        UseCaseErrorView::Common(e.text())
    }
}

/// Tasks, their history and the memberships that guard them.
pub struct Tasks {
    tasks_repo: DBTasks,
    task_histories_repo: DBTaskHistories,
    team_members_repo: DBTeamMembers,
}

impl Tasks {
    pub closed spec fn spec_tasks_repo(&self) -> DBTasks {
        self.tasks_repo
    }

    pub closed spec fn spec_task_histories_repo(&self) -> DBTaskHistories {
        self.task_histories_repo
    }

    pub closed spec fn spec_team_members_repo(&self) -> DBTeamMembers {
        self.team_members_repo
    }

    pub fn new(tasks_repo: DBTasks, task_histories_repo: DBTaskHistories, team_members_repo: DBTeamMembers) -> (r: Self)
        ensures
            r.spec_tasks_repo() == tasks_repo,
            r.spec_task_histories_repo() == task_histories_repo,
            r.spec_team_members_repo() == team_members_repo,
    {
        Tasks { tasks_repo, task_histories_repo, team_members_repo }
    }

    /// The table of tasks.
    pub fn tasks_repo(&self) -> (r: &DBTasks)
        ensures
            *r == self.spec_tasks_repo(),
    {
        &self.tasks_repo
    }

    /// The table of history records.
    pub fn task_histories_repo(&self) -> (r: &DBTaskHistories)
        ensures
            *r == self.spec_task_histories_repo(),
    {
        &self.task_histories_repo
    }

    /// The table of memberships.
    pub fn team_members_repo(&self) -> (r: &DBTeamMembers)
        ensures
            *r == self.spec_team_members_repo(),
    {
        &self.team_members_repo
    }

    /// The tasks of a page read from the table, in order.
    pub fn list(items: Vec<DBTask>) -> (r: Vec<Task>)
        ensures
            r@.len() == items@.len(),
            forall|i: int|
                0 <= i < items@.len() ==> {
                    let (a, b) = (#[trigger] r@[i], items@[i]);
                    a.task_id == b.task_id && a.name == b.name && a.description == b.description
                        && a.created_by == b.created_by && a.team_id == b.team_id
                        && a.assignee_id == b.assignee_id && a.status == b.status
                        && a.created_at == b.created_at && a.updated_at == b.updated_at
                },
    {
        map_list(items, task_db_to_task_uc)
    }

    /// The history of a task read from the table, in order.
    pub fn get_history(items: Vec<DBTaskHistory>) -> (r: Vec<TaskHistory>)
        ensures
            r@.len() == items@.len(),
            forall|i: int|
                0 <= i < items@.len() ==> {
                    let (a, b) = (#[trigger] r@[i], items@[i]);
                    a.task_history_id == b.task_history_id && a.task_id == b.task_id
                        && a.user_id == b.user_id && a.msg == b.msg && a.created_at
                        == b.created_at
                },
    {
        map_list(items, task_history_db_to_task_history_uc)
    }

    /// What `check_access` answers where the user's membership in the team cannot be
    /// read: only members of the team may create, change or delete its tasks.
    pub fn access_error(e: RepositoryError) -> (r: UseCaseError)
        ensures
            r@ == access_error(e),
    {
        match e {
            RepositoryError::NotFoundRow => UseCaseError::shown(
                status::FORBIDDEN,
                ErrMsg::NoAccessTeamMemberOnly,
            ),
            other => UseCaseError::Common(other.to_string()),
        }
    }

    /// The history record of what the user did to the task (`create`, `update` or
    /// `delete`), stored with the nil id and the epoch; the table assigns both.
    pub fn history_record(task_id: Uuid, user_id: Uuid, msg: &str) -> (r: DBTaskHistory)
        ensures
            r.task_id == task_id,
            r.user_id == user_id,
            r.msg@ == msg@,
            r.task_history_id.value == 0,
            r.created_at.spec_secs() == 0 && r.created_at.spec_nanos() == 0,
    {
        task_history_uc_to_task_history_db(
            TaskHistory {
                task_history_id: Default::default(),
                task_id,
                user_id,
                msg: String::from_str(msg),
                created_at: DateTime::default(),
            },
        )
    }

    /// What `delete` stores in place of the task: the same task, cancelled. Tasks are
    /// never removed.
    pub fn cancelled(task: Task) -> (r: Task)
        ensures
            r.status@ == TaskStatus::Cancelled.text(),
            r.task_id == task.task_id && r.name == task.name && r.description
                == task.description && r.created_by == task.created_by && r.team_id
                == task.team_id && r.assignee_id == task.assignee_id && r.created_at
                == task.created_at && r.updated_at == task.updated_at,
    {
        let mut task = task;
        task.status = TaskStatus::Cancelled.to_string();
        task
    }
}

} // verus!
