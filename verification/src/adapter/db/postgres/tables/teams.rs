//! The `teams` table.
use vstd::prelude::*;
use crate::adapter::db::postgres::query::{
    around_name, builder_page_binds, builder_page_text, page_query, select_from, select_where,
    PageQuery,
};
use crate::adapter::db::traits::NameAndFields;

verus! {

/// The `teams` table.
#[derive(Clone, Copy, Default)]
pub struct Teams {}

impl NameAndFields for Teams {
    open spec fn spec_name(&self) -> Seq<char> {
        "teams"@
    }

    open spec fn spec_fields(&self) -> Seq<Seq<char>> {
        seq!["team_id"@, "name"@, "created_by"@, "created_at"@, "updated_at"@]
    }

    fn get_name(&self) -> (r: &str) {
        "teams"
    }

    fn get_fields(&self) -> (r: &[&str]) {
        let r: &[&str] = &["team_id", "name", "created_by", "created_at", "updated_at"];
        assert(r@.map_values(|f: &str| f@) =~= self.spec_fields());
        r
    }
}

impl Teams {
    pub fn new() -> (r: Self) {
        Teams {}
    }

    /// The page of teams that `list` reads, newest first, and the count of all teams.
    pub fn list_query(&self, limit: i32, offset: i32) -> (r: PageQuery)
        ensures
            r.select@ == select_from(self.spec_fields(), self.spec_name())
                + " ORDER BY created_at DESC"@ + builder_page_text(limit, offset),
            r.binds@ == builder_page_binds(limit, offset),
            r.count@ == "SELECT COUNT(*) FROM "@ + "teams"@,
    {
        page_query(self, limit, offset)
    }

    /// The query of `one`: the team with the id bound to `$1`.
    pub fn one_query(&self) -> (r: String)
        ensures
            r@ == select_from(self.spec_fields(), self.spec_name()) + " WHERE "@
                + "team_id=$1"@,
    {
        select_where(self, "team_id=$1")
    }

    /// The statement of `create`; it binds the name and the author, and returns the id.
    pub fn create_query(&self) -> (r: String)
        ensures
            r@ == "INSERT INTO "@ + "teams"@
                + " (name, created_by) VALUES ($1,$2) RETURNING team_id"@,
    {
        around_name(self, "INSERT INTO ", " (name, created_by) VALUES ($1,$2) RETURNING team_id")
    }

    /// The statement of `update`: only the name changes, never the author.
    pub fn update_query(&self) -> (r: String)
        ensures
            r@ == "UPDATE "@ + "teams"@ + " SET name=$1 WHERE team_id=$2"@,
    {
        around_name(self, "UPDATE ", " SET name=$1 WHERE team_id=$2")
    }

    /// The statement of `delete`: the team with the id bound to `$1`.
    pub fn delete_query(&self) -> (r: String)
        ensures
            r@ == "DELETE FROM "@ + "teams"@ + " WHERE team_id=$1"@,
    {
        around_name(self, "DELETE FROM ", " WHERE team_id=$1")
    }
}

} // verus!
