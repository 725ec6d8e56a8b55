//! The `users` table.
use vstd::prelude::*;
use vstd::string::*;
use crate::adapter::db::postgres::query::{
    around_name, page_query, select_from, select_where, builder_page_binds, builder_page_text,
    PageQuery,
};
use crate::adapter::db::traits::NameAndFields;
use crate::text::opt_view;

verus! {

/// The role of a user. `Null` stands for "no role" when a role is set.
#[derive(Clone, Copy, Debug, PartialEq, Eq, Structural)]
pub enum Role {
    Admin,
    Moder,
    Null,
}

impl Role {
    /// The text of the role as the database stores it.
    pub open spec fn text(self) -> Seq<char> {
        match self {
            Role::Admin => "admin"@,
            Role::Moder => "moder"@,
            Role::Null => "null"@,
        }
    }

    /// The text of the role as the database stores it.
    pub fn to_string(&self) -> (r: String)
        ensures
            r@ == self.text(),
    {
        match self {
            Role::Admin => String::from_str("admin"),
            Role::Moder => String::from_str("moder"),
            Role::Null => String::from_str("null"),
        }
    }
}

/// The `users` table.
#[derive(Clone, Copy, Default)]
pub struct Users {}

impl NameAndFields for Users {
    open spec fn spec_name(&self) -> Seq<char> {
        "users"@
    }

    open spec fn spec_fields(&self) -> Seq<Seq<char>> {
        seq![
            "user_id"@,
            "email"@,
            "password"@,
            "name"@,
            "email_code"@,
            "avatar"@,
            "role::text as role"@,
            "created_at"@,
            "updated_at"@,
        ]
    }

    fn get_name(&self) -> (r: &str) {
        "users"
    }

    fn get_fields(&self) -> (r: &[&str]) {
        let r: &[&str] = &[
            "user_id",
            "email",
            "password",
            "name",
            "email_code",
            "avatar",
            "role::text as role",
            "created_at",
            "updated_at",
        ];
        assert(r@.map_values(|f: &str| f@) =~= self.spec_fields());
        r
    }
}

/// The role that a write stores: none where the role is the text of `Role::Null`.
pub open spec fn valid_role(role: Option<Seq<char>>) -> Option<Seq<char>> {
    match role {
        Some(v) => if v == Role::Null.text() { None } else { Some(v) },
        None => None,
    }
}

impl Users {
    pub fn new() -> (r: Self) {
        Users {}
    }

    /// The page of users that `list` reads, newest first, and the count of all users.
    pub fn list_query(&self, limit: i32, offset: i32) -> (r: PageQuery)
        ensures
            r.select@ == select_from(self.spec_fields(), self.spec_name())
                + " ORDER BY created_at DESC"@ + builder_page_text(limit, offset),
            r.binds@ == builder_page_binds(limit, offset),
            r.count@ == "SELECT COUNT(*) FROM "@ + "users"@,
    {
        page_query(self, limit, offset)
    }

    /// The query of `one`: the user with the id bound to `$1`.
    pub fn one_query(&self) -> (r: String)
        ensures
            r@ == select_from(self.spec_fields(), self.spec_name()) + " WHERE "@
                + "user_id=$1"@,
    {
        select_where(self, "user_id=$1")
    }

    /// The query of `by_email`: the user with the email bound to `$1`.
    pub fn by_email_query(&self) -> (r: String)
        ensures
            r@ == select_from(self.spec_fields(), self.spec_name()) + " WHERE "@ + "email=$1"@,
    {
        select_where(self, "email=$1")
    }

    /// The statement of `create`; it binds email, password, name, email code, avatar and
    /// the role that `get_valid_role` gives, and returns the new id.
    pub fn create_query(&self) -> (r: String)
        ensures
            r@ == "INSERT INTO "@ + "users"@
                + " (email, password, name, email_code, avatar, role) VALUES ($1,$2,$3,$4,$5,$6::user_role_enum) RETURNING user_id"@,
    {
        around_name(
            self,
            "INSERT INTO ",
            " (email, password, name, email_code, avatar, role) VALUES ($1,$2,$3,$4,$5,$6::user_role_enum) RETURNING user_id",
        )
    }

    /// The statement of `update`; it binds the same fields as `create`, then the id.
    pub fn update_query(&self) -> (r: String)
        ensures
            r@ == "UPDATE "@ + "users"@
                + " SET email=$1, password=$2, name=$3, email_code=$4, avatar=$5, role=$6::user_role_enum WHERE user_id=$7"@,
    {
        around_name(
            self,
            "UPDATE ",
            " SET email=$1, password=$2, name=$3, email_code=$4, avatar=$5, role=$6::user_role_enum WHERE user_id=$7",
        )
    }

    /// The statement of `delete`: the user with the id bound to `$1`.
    pub fn delete_query(&self) -> (r: String)
        ensures
            r@ == "DELETE FROM "@ + "users"@ + " WHERE user_id=$1"@,
    {
        around_name(self, "DELETE FROM ", " WHERE user_id=$1")
    }

    /// The role to store: the role unless it is `null`, which clears it.
    pub fn get_valid_role(&self, role: &Option<String>) -> (r: Option<String>)
        ensures
            opt_view(r) == valid_role(opt_view(*role)),
    {
        match role {
            Some(v) => {
                let null = Role::Null.to_string();
                if *v == null {
                    None
                } else {
                    Some(v.clone())
                }
            },
            None => None,
        }
    }
}

} // verus!
