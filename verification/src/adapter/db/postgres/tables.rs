pub mod task_comments;
pub mod task_histories;
pub mod tasks;
pub mod team_members;
pub mod teams;
pub mod users;
