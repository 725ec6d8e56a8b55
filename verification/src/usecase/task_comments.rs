//! Comments on tasks.
use vstd::prelude::*;
use vstd::string::*;
use crate::adapter::db::models::TaskComment as DBTaskComment;
use crate::adapter::db::postgres::tables::task_comments::TaskComments as DBTaskComments;
use crate::adapter::db::RepositoryError;
use super::mapper::{map_list, task_comment_db_to_task_comment_uc};
use super::models::TaskComment;
use super::{UseCaseError, UseCaseErrorView};

verus! {

/// Comments on tasks.
pub struct TaskComments {
    task_comments_repo: DBTaskComments,
}

impl TaskComments {
    pub closed spec fn spec_task_comments_repo(&self) -> DBTaskComments {
        self.task_comments_repo
    }

    pub fn new(task_comments_repo: DBTaskComments) -> (r: Self)
        ensures
            r.spec_task_comments_repo() == task_comments_repo,
    {
        TaskComments { task_comments_repo }
    }

    /// The table of comments.
    pub fn task_comments_repo(&self) -> (r: &DBTaskComments)
        ensures
            *r == self.spec_task_comments_repo(),
    {
        &self.task_comments_repo
    }

    /// The comments of a page read from the table, in order.
    pub fn list(items: Vec<DBTaskComment>) -> (r: Vec<TaskComment>)
        ensures
            r@.len() == items@.len(),
            forall|i: int|
                0 <= i < items@.len() ==> {
                    let (a, b) = (#[trigger] r@[i], items@[i]);
                    a.task_comment_id == b.task_comment_id && a.task_id == b.task_id
                        && a.user_id == b.user_id && a.msg == b.msg && a.created_at
                        == b.created_at && a.updated_at == b.updated_at
                },
    {
        map_list(items, task_comment_db_to_task_comment_uc)
    }

    /// What `list` answers where the page cannot be read: an internal error.
    pub fn list_error(e: RepositoryError) -> (r: UseCaseError)
        ensures
            r@ == UseCaseErrorView::Common("failed to get items: "@ + e.text()),
    {
        let mut m = String::from_str("failed to get items: ");
        let t = e.to_string();
        m.append(t.as_str());
        UseCaseError::Common(m)
    }
}

} // verus!
