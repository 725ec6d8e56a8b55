//! The records as the use cases see them.
use vstd::prelude::*;
use crate::types::{DateTime, Uuid};

verus! {

/// A user.
#[derive(Debug)]
pub struct User {
    pub user_id: Uuid,
    pub email: String,
    pub password: String,
    pub name: Option<String>,
    pub email_code: Option<String>,
    pub avatar: Option<String>,
    pub role: Option<String>,
    pub created_at: DateTime,
    pub updated_at: DateTime,
}

/// What creating a user is given.
#[derive(Debug)]
pub struct UserCreate {
    pub email: String,
    pub password: String,
    pub name: Option<String>,
    pub email_code: Option<String>,
    pub role: Option<String>,
    pub avatar: Option<String>,
}

/// What changes in a user: each field given replaces the stored one; the avatar may
/// also be removed.
#[derive(Debug)]
pub struct UserUpdate {
    pub user_id: Uuid,
    pub email: Option<String>,
    pub password: Option<String>,
    pub name: Option<String>,
    pub email_code: Option<String>,
    pub role: Option<String>,
    pub avatar: Option<String>,
    pub is_remove_avatar: bool,
}

/// A team.
#[derive(Debug)]
pub struct Team {
    pub team_id: Uuid,
    pub name: String,
    pub created_by: Uuid,
    pub created_at: DateTime,
    pub updated_at: DateTime,
}

/// The membership of a user in a team.
#[derive(Debug)]
pub struct TeamMember {
    pub team_id: Uuid,
    pub user_id: Uuid,
    pub created_at: DateTime,
}

/// A task.
#[derive(Debug)]
pub struct Task {
    pub task_id: Uuid,
    pub name: String,
    pub description: Option<String>,
    pub created_by: Uuid,
    pub team_id: Uuid,
    pub assignee_id: Option<Uuid>,
    pub status: String,
    pub created_at: DateTime,
    pub updated_at: DateTime,
}

/// What a user did to a task.
#[derive(Debug)]
pub struct TaskHistory {
    pub task_history_id: Uuid,
    pub task_id: Uuid,
    pub user_id: Uuid,
    pub msg: String,
    pub created_at: DateTime,
}

/// A comment on a task.
#[derive(Debug)]
pub struct TaskComment {
    pub task_comment_id: Uuid,
    pub task_id: Uuid,
    pub user_id: Uuid,
    pub msg: String,
    pub created_at: DateTime,
    pub updated_at: DateTime,
}

/// Which tasks a listing asks for: a page (a negative `limit` or `offset` means none) and
/// optional filters.
#[derive(Debug)]
pub struct TaskLimitOffsetFilter {
    pub limit: i32,
    pub offset: i32,
    pub team_id: Option<Uuid>,
    pub assignee_id: Option<Uuid>,
    pub status: Option<String>,
}

/// The filter of a task listing, under the name the use cases give it.
pub type TaskData = TaskLimitOffsetFilter;

} // verus!
