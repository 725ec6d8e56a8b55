//! The `team_members` table: who belongs to which team.
use vstd::prelude::*;
use crate::adapter::db::postgres::query::{around_name, select_from, select_from_table, select_where};
use crate::adapter::db::traits::NameAndFields;
use vstd::string::*;

verus! {

/// The `team_members` table.
#[derive(Clone, Copy, Default)]
pub struct TeamMembers {}

impl NameAndFields for TeamMembers {
    open spec fn spec_name(&self) -> Seq<char> {
        "team_members"@
    }

    open spec fn spec_fields(&self) -> Seq<Seq<char>> {
        seq!["team_id"@, "user_id"@, "created_at"@]
    }

    fn get_name(&self) -> (r: &str) {
        "team_members"
    }

    fn get_fields(&self) -> (r: &[&str]) {
        let r: &[&str] = &["team_id", "user_id", "created_at"];
        assert(r@.map_values(|f: &str| f@) =~= self.spec_fields());
        r
    }
}

impl TeamMembers {
    pub fn new() -> (r: Self) {
        TeamMembers {}
    }

    /// The query of `all`: every membership, newest first.
    pub fn all_query(&self) -> (r: String)
        ensures
            r@ == select_from(self.spec_fields(), self.spec_name())
                + " ORDER BY created_at DESC"@,
    {
        let mut r = select_from_table(self);
        r.append(" ORDER BY created_at DESC");
        r
    }

    /// The query of `one`: the membership of the user bound to `$2` in the team bound to
    /// `$1`.
    pub fn one_query(&self) -> (r: String)
        ensures
            r@ == select_from(self.spec_fields(), self.spec_name()) + " WHERE "@
                + "team_id=$1 AND user_id=$2"@,
    {
        select_where(self, "team_id=$1 AND user_id=$2")
    }

    /// The statement of `create`; it binds the team and the user.
    pub fn create_query(&self) -> (r: String)
        ensures
            r@ == "INSERT INTO "@ + "team_members"@ + " (team_id, user_id) VALUES ($1,$2)"@,
    {
        around_name(self, "INSERT INTO ", " (team_id, user_id) VALUES ($1,$2)")
    }

    /// The statement of `delete`: the membership of the user bound to `$2` in the team
    /// bound to `$1`.
    pub fn delete_query(&self) -> (r: String)
        ensures
            r@ == "DELETE FROM "@ + "team_members"@ + " WHERE team_id=$1 AND user_id=$2"@,
    {
        around_name(self, "DELETE FROM ", " WHERE team_id=$1 AND user_id=$2")
    }
}

} // verus!
