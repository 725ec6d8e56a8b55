//! The `task_histories` table: what was done to each task, and by whom.
use vstd::prelude::*;
use crate::adapter::db::postgres::query::{
    around_name, builder_page_binds, builder_page_text, page_query, select_from, select_where,
    PageQuery,
};
use crate::adapter::db::traits::NameAndFields;
use vstd::string::*;

verus! {

/// The `task_histories` table.
#[derive(Clone, Copy, Default)]
pub struct TaskHistories {}

impl NameAndFields for TaskHistories {
    open spec fn spec_name(&self) -> Seq<char> {
        "task_histories"@
    }

    open spec fn spec_fields(&self) -> Seq<Seq<char>> {
        seq!["task_history_id"@, "task_id"@, "user_id"@, "msg"@, "created_at"@]
    }

    fn get_name(&self) -> (r: &str) {
        "task_histories"
    }

    fn get_fields(&self) -> (r: &[&str]) {
        let r: &[&str] = &["task_history_id", "task_id", "user_id", "msg", "created_at"];
        assert(r@.map_values(|f: &str| f@) =~= self.spec_fields());
        r
    }
}

impl TaskHistories {
    pub fn new() -> (r: Self) {
        TaskHistories {}
    }

    /// The page of records that `list` reads, newest first, and the count of all records.
    pub fn list_query(&self, limit: i32, offset: i32) -> (r: PageQuery)
        ensures
            r.select@ == select_from(self.spec_fields(), self.spec_name())
                + " ORDER BY created_at DESC"@ + builder_page_text(limit, offset),
            r.binds@ == builder_page_binds(limit, offset),
            r.count@ == "SELECT COUNT(*) FROM "@ + "task_histories"@,
    {
        page_query(self, limit, offset)
    }

    /// The query of `one`: the record with the id bound to `$1`.
    pub fn one_query(&self) -> (r: String)
        ensures
            r@ == select_from(self.spec_fields(), self.spec_name()) + " WHERE "@
                + "task_history_id=$1"@,
    {
        select_where(self, "task_history_id=$1")
    }

    /// The query of `by_task_id`: the records of the task bound to `$1`, newest first.
    pub fn by_task_id_query(&self) -> (r: String)
        ensures
            r@ == select_from(self.spec_fields(), self.spec_name()) + " WHERE "@
                + "task_id=$1 ORDER BY created_at DESC"@,
    {
        select_where(self, "task_id=$1 ORDER BY created_at DESC")
    }

    /// The statement of `create`; it binds task, user and message, and returns the id.
    pub fn create_query(&self) -> (r: String)
        ensures
            r@ == "INSERT INTO "@ + "task_histories"@
                + " (task_id, user_id, msg) VALUES ($1,$2,$3) RETURNING task_history_id"@,
    {
        around_name(
            self,
            "INSERT INTO ",
            " (task_id, user_id, msg) VALUES ($1,$2,$3) RETURNING task_history_id",
        )
    }

    /// The statement of `update`; it binds task, user, message, then the id.
    pub fn update_query(&self) -> (r: String)
        ensures
            r@ == "UPDATE "@ + "task_histories"@
                + " SET task_id=$1, user_id=$2, msg=$3 WHERE task_history_id=$4"@,
    {
        around_name(self, "UPDATE ", " SET task_id=$1, user_id=$2, msg=$3 WHERE task_history_id=$4")
    }

    /// The statement of `delete`: the record with the id bound to `$1`.
    pub fn delete_query(&self) -> (r: String)
        ensures
            r@ == "DELETE FROM "@ + "task_histories"@ + " WHERE task_history_id=$1"@,
    {
        around_name(self, "DELETE FROM ", " WHERE task_history_id=$1")
    }
}

} // verus!
