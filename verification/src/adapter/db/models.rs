//! The records as the tables store them.
use vstd::prelude::*;
use crate::text::opt_view;
use crate::types::{DateTime, Uuid};

verus! {

/// A stored user with its texts as sequences.
pub struct UserView {
    pub user_id: Uuid,
    pub email: Seq<char>,
    pub password: Seq<char>,
    pub name: Option<Seq<char>>,
    pub email_code: Option<Seq<char>>,
    pub avatar: Option<Seq<char>>,
    pub role: Option<Seq<char>>,
    pub created_at: DateTime,
    pub updated_at: DateTime,
}

/// A row of `users`.
#[derive(Debug)]
pub struct User {
    pub user_id: Uuid,
    pub email: String,
    pub password: String,
    pub name: Option<String>,
    pub email_code: Option<String>,
    pub avatar: Option<String>,
    pub role: Option<String>,
    pub created_at: DateTime,
    pub updated_at: DateTime,
}

impl View for User {
    type V = UserView;

    open spec fn view(&self) -> UserView {
        UserView {
            user_id: self.user_id,
            email: self.email@,
            password: self.password@,
            name: opt_view(self.name),
            email_code: opt_view(self.email_code),
            avatar: opt_view(self.avatar),
            role: opt_view(self.role),
            created_at: self.created_at,
            updated_at: self.updated_at,
        }
    }
}

impl User {
    /// A field-by-field copy.
    pub fn clone(&self) -> (r: User)
        ensures
            r == *self,
    {
        User {
            user_id: self.user_id,
            email: self.email.clone(),
            password: self.password.clone(),
            name: crate::text::clone_opt(&self.name),
            email_code: crate::text::clone_opt(&self.email_code),
            avatar: crate::text::clone_opt(&self.avatar),
            role: crate::text::clone_opt(&self.role),
            created_at: self.created_at,
            updated_at: self.updated_at,
        }
    }
}

impl Default for User {
    /// A user with the nil id, empty email and password, no optional field, and both
    /// instants at the epoch.
    fn default() -> (r: User)
        ensures
            r.user_id.value == 0,
            r.email@ == Seq::<char>::empty(),
            r.password@ == Seq::<char>::empty(),
            r.name is None,
            r.email_code is None,
            r.avatar is None,
            r.role is None,
            r.created_at.spec_secs() == 0 && r.created_at.spec_nanos() == 0,
            r.updated_at.spec_secs() == 0 && r.updated_at.spec_nanos() == 0,
    {
        User {
            user_id: Uuid::nil(),
            email: String::new(),
            password: String::new(),
            name: None,
            email_code: None,
            avatar: None,
            role: None,
            created_at: DateTime::default(),
            updated_at: DateTime::default(),
        }
    }
}

/// A row of `teams`.
#[derive(Debug)]
pub struct Team {
    pub team_id: Uuid,
    pub name: String,
    pub created_by: Uuid,
    pub created_at: DateTime,
    pub updated_at: DateTime,
}

/// A row of `team_members`: the user belongs to the team.
#[derive(Debug)]
pub struct TeamMember {
    pub team_id: Uuid,
    pub user_id: Uuid,
    pub created_at: DateTime,
}

/// A row of `tasks`.
#[derive(Debug)]
pub struct Task {
    pub task_id: Uuid,
    pub name: String,
    pub description: Option<String>,
    pub created_by: Uuid,
    pub team_id: Uuid,
    pub assignee_id: Option<Uuid>,
    pub status: String,
    pub created_at: DateTime,
    pub updated_at: DateTime,
}

/// A row of `task_histories`: what a user did to a task.
#[derive(Debug)]
pub struct TaskHistory {
    pub task_history_id: Uuid,
    pub task_id: Uuid,
    pub user_id: Uuid,
    pub msg: String,
    pub created_at: DateTime,
}

/// A row of `task_comments`.
#[derive(Debug)]
pub struct TaskComment {
    pub task_comment_id: Uuid,
    pub task_id: Uuid,
    pub user_id: Uuid,
    pub msg: String,
    pub created_at: DateTime,
    pub updated_at: DateTime,
}

/// One page of rows and the number of rows in all.
#[derive(Debug)]
pub struct List<T>(pub Vec<T>, pub i64);

/// Which tasks a listing asks for: a page (a negative `limit` or `offset` means none) and
/// optional filters.
#[derive(Debug)]
pub struct TaskData {
    pub limit: i32,
    pub offset: i32,
    pub team_id: Option<Uuid>,
    pub assignee_id: Option<Uuid>,
    pub status: Option<String>,
}

} // verus!
