//! The `task_comments` table.
use vstd::prelude::*;
use vstd::string::*;
use crate::adapter::db::postgres::query::{
    append_page, around_name, condition, page_text, page_values, push_condition, select_from,
    select_from_table, select_where, views, where_clause, where_text,
};
use crate::adapter::db::traits::NameAndFields;
use crate::types::{uuid_text, Uuid};

verus! {

/// The `task_comments` table.
#[derive(Clone, Copy, Default)]
pub struct TaskComments {}

impl NameAndFields for TaskComments {
    open spec fn spec_name(&self) -> Seq<char> {
        "task_comments"@
    }

    open spec fn spec_fields(&self) -> Seq<Seq<char>> {
        seq!["task_comment_id"@, "task_id"@, "user_id"@, "msg"@, "created_at"@, "updated_at"@]
    }

    fn get_name(&self) -> (r: &str) {
        "task_comments"
    }

    fn get_fields(&self) -> (r: &[&str]) {
        let r: &[&str] = &[
            "task_comment_id",
            "task_id",
            "user_id",
            "msg",
            "created_at",
            "updated_at",
        ];
        assert(r@.map_values(|f: &str| f@) =~= self.spec_fields());
        r
    }
}

/// The two queries of a comment listing and what each binds.
pub struct CommentListQuery {
    /// The page of comments, newest first.
    pub query_common: String,
    /// The number of comments of the task.
    pub query_count: String,
    /// The values bound to `query_count`.
    pub count_params: Vec<String>,
    /// The values bound to `query_common`.
    pub common_params: Vec<String>,
}

impl TaskComments {
    pub fn new() -> (r: Self) {
        TaskComments {}
    }

    /// The queries of `list`: the comments of one task; the task's id is the first
    /// placeholder of both queries, the page clause follows it in the page query only.
    pub fn list_query(&self, task_id: &Uuid, limit: i32, offset: i32) -> (r: CommentListQuery)
        ensures
            ({
                let w = where_text(seq![condition("task_id"@, 1, "::uuid"@)]);
                &&& r.query_count@ == "SELECT COUNT(*) as count FROM "@ + "task_comments"@ + w
                &&& r.query_common@ == select_from(self.spec_fields(), self.spec_name()) + w
                    + " ORDER BY created_at DESC"@ + page_text(1, limit, offset)
                &&& views(r.count_params@) == seq![uuid_text(task_id.value)]
                &&& views(r.common_params@) == seq![uuid_text(task_id.value)] + page_values(
                    limit,
                    offset,
                )
            }),
    {
        let mut query_common = select_from_table(self);
        let mut query_count = around_name(self, "SELECT COUNT(*) as count FROM ", "");
        proof {
            reveal_strlit("");
        }
        let mut conditions: Vec<String> = Vec::new();
        let mut params: Vec<String> = Vec::new();
        assert(views(conditions@) =~= Seq::<Seq<char>>::empty());
        assert(views(params@) =~= Seq::<Seq<char>>::empty());
        push_condition(&mut conditions, &mut params, "task_id", "::uuid", task_id.to_string());
        assert(views(conditions@) =~= seq![condition("task_id"@, 1, "::uuid"@)]);
        let where_str = where_clause(&conditions);
        query_common.append(where_str.as_str());
        query_count.append(where_str.as_str());
        assert(views(params@).len() == 1);
        assert(params@.len() == 1);
        let count_params = params.clone();
        query_common.append(" ORDER BY created_at DESC");
        append_page(&mut query_common, &mut params, limit, offset);
        assert(views(count_params@) =~= seq![uuid_text(task_id.value)]);
        CommentListQuery { query_common, query_count, count_params, common_params: params }
    }

    /// The query of `one`: the comment with the id bound to `$1`.
    pub fn one_query(&self) -> (r: String)
        ensures
            r@ == select_from(self.spec_fields(), self.spec_name()) + " WHERE "@
                + "task_comment_id=$1"@,
    {
        select_where(self, "task_comment_id=$1")
    }

    /// The statement of `create`; it binds task, user and message, and returns the id.
    pub fn create_query(&self) -> (r: String)
        ensures
            r@ == "INSERT INTO "@ + "task_comments"@
                + " (task_id, user_id, msg) VALUES ($1,$2,$3) RETURNING task_comment_id"@,
    {
        around_name(
            self,
            "INSERT INTO ",
            " (task_id, user_id, msg) VALUES ($1,$2,$3) RETURNING task_comment_id",
        )
    }

    /// The statement of `update`; it binds task, user, message, then the id.
    pub fn update_query(&self) -> (r: String)
        ensures
            r@ == "UPDATE "@ + "task_comments"@
                + " SET task_id=$1, user_id=$2, msg=$3 WHERE task_comment_id=$4"@,
    {
        around_name(self, "UPDATE ", " SET task_id=$1, user_id=$2, msg=$3 WHERE task_comment_id=$4")
    }

    /// The statement of `delete`: the comment with the id bound to `$1`.
    pub fn delete_query(&self) -> (r: String)
        ensures
            r@ == "DELETE FROM "@ + "task_comments"@ + " WHERE task_comment_id=$1"@,
    {
        around_name(self, "DELETE FROM ", " WHERE task_comment_id=$1")
    }
}

} // verus!
