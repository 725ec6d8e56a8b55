//! What the HTTP interface sends and receives, field by field; identifiers and instants
//! travel as text.
use vstd::prelude::*;
use crate::types::Uuid;

verus! {

/// The user that a checked access token names.
#[derive(Debug)]
pub struct AuthUser {
    pub user_id: Uuid,
    pub role: Option<String>,
}

#[derive(Debug)]
pub struct Team {
    pub team_id: String,
    pub name: String,
    pub created_by: String,
    pub created_at: String,
    pub updated_at: String,
}

#[derive(Debug)]
pub struct Task {
    pub task_id: String,
    pub name: String,
    pub description: Option<String>,
    pub created_by: String,
    pub team_id: String,
    pub assignee_id: Option<String>,
    pub status: String,
    pub created_at: String,
    pub updated_at: String,
}

#[derive(Debug)]
pub struct TaskHistory {
    pub task_history_id: String,
    pub task_id: String,
    pub user_id: String,
    pub msg: String,
    pub created_at: String,
}

#[derive(Debug)]
pub struct User {
    pub user_id: String,
    pub name: Option<String>,
    pub email: String,
    pub avatar: Option<String>,
    pub role: Option<String>,
    pub created_at: String,
    pub updated_at: String,
}

#[derive(Debug)]
pub struct TaskComment {
    pub task_comment_id: String,
    pub task_id: String,
    pub user_id: String,
    pub msg: String,
    pub created_at: String,
    pub updated_at: String,
}

#[derive(Debug)]
pub struct RequestTeam {
    pub name: String,
}

#[derive(Debug)]
pub struct RequestTask {
    pub name: String,
    pub description: Option<String>,
    pub created_by: String,
    pub team_id: String,
    pub assignee_id: Option<String>,
    pub status: String,
}

#[derive(Debug)]
pub struct RequestTaskData {
    pub limit: i32,
    pub offset: i32,
    pub team_id: Option<String>,
    pub assignee_id: Option<String>,
    pub status: Option<String>,
}

#[derive(Debug)]
pub struct RequestUserCreate {
    pub email: String,
    pub password: String,
    pub name: Option<String>,
    pub role: Option<String>,
    pub avatar: Option<String>,
}

#[derive(Debug)]
pub struct RequestUserUpdate {
    pub email: Option<String>,
    pub password: Option<String>,
    pub name: Option<String>,
    pub role: Option<String>,
    pub avatar: Option<String>,
    pub is_remove_avatar: bool,
}

} // verus!
