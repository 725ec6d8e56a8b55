//! A table described by its name and its column list, held as values.
use vstd::prelude::*;
use vstd::string::*;
use crate::adapter::db::postgres::query::views;
use crate::text::{join, join_strings};

verus! {

/// A table's name and the columns a `SELECT` of it reads.
pub struct TableBasic {
    pub name: String,
    pub fields: Vec<String>,
}

impl TableBasic {
    /// The counting query that `count` runs: the one given, else
    /// `SELECT COUNT(*) FROM <name>`. The given parameters are bound in order.
    pub fn count_query(&self, query: Option<String>) -> (r: String)
        ensures
            r@ == match query {
                Some(q) => q@,
                None => "SELECT COUNT(*) FROM "@ + self.name@,
            },
    {
        match query {
            Some(q) => q,
            None => {
                let mut q = String::from_str("SELECT COUNT(*) FROM ");
                q.append(self.name.as_str());
                q
            },
        }
    }

    /// `SELECT <fields joined by commas> FROM <name>`.
    pub fn select_text(&self) -> (r: String)
        ensures
            r@ == "SELECT "@ + join(views(self.fields@), ","@) + " FROM "@ + self.name@,
    {
        let mut r = String::from_str("SELECT ");
        let fields = join_strings(&self.fields, ",");
        r.append(fields.as_str());
        r.append(" FROM ");
        r.append(self.name.as_str());
        r
    }
}

} // verus!
