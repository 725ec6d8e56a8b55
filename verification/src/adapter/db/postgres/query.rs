//! Pieces of SQL text shared by the tables: column lists, `WHERE` clauses with numbered
//! placeholders, and pages (`LIMIT` / `OFFSET`).
use vstd::prelude::*;
use vstd::string::*;
use crate::adapter::db::traits::NameAndFields;
use crate::text::{append_i64, append_u64, decimal_int, decimal_nat, join, join_strings, join_strs};

verus! {

/// `SELECT <fields joined by commas> FROM <name>`.
pub open spec fn select_from(fields: Seq<Seq<char>>, name: Seq<char>) -> Seq<char> {
    "SELECT "@ + join(fields, ","@) + " FROM "@ + name
}

/// The statement `SELECT <fields> FROM <name>` for a table.
pub fn select_from_table<T: NameAndFields>(table: &T) -> (r: String)
    ensures
        r@ == select_from(table.spec_fields(), table.spec_name()),
{
    let mut r = String::from_str("SELECT ");
    let fields = join_strs(table.get_fields(), ",");
    r.append(fields.as_str());
    r.append(" FROM ");
    r.append(table.get_name());
    r
}

/// `SELECT <fields> FROM <name> WHERE <condition>`, for a condition such as `user_id=$1`.
pub fn select_where<T: NameAndFields>(table: &T, condition: &str) -> (r: String)
    ensures
        r@ == select_from(table.spec_fields(), table.spec_name()) + " WHERE "@ + condition@,
{
    let mut r = select_from_table(table);
    r.append(" WHERE ");
    r.append(condition);
    r
}

/// `<head><name><tail>`, as `format!("<head>{}<tail>", name)` writes it.
pub fn around_name<T: NameAndFields>(table: &T, head: &str, tail: &str) -> (r: String)
    ensures
        r@ == head@ + table.spec_name() + tail@,
{
    let mut r = String::from_str(head);
    r.append(table.get_name());
    r.append(tail);
    r
}

/// One condition of a `WHERE` clause: `<column>=$<n><cast>`, where `n` numbers the value
/// bound to it.
pub open spec fn condition(column: Seq<char>, n: nat, cast: Seq<char>) -> Seq<char> {
    column + "=$"@ + decimal_nat(n) + cast
}

/// Nothing for no condition, else ` WHERE ` and the conditions joined by ` AND `.
pub open spec fn where_text(conditions: Seq<Seq<char>>) -> Seq<char> {
    if conditions.len() == 0 {
        Seq::empty()
    } else {
        " WHERE "@ + join(conditions, " AND "@)
    }
}

/// The page clause that follows `bound` bound values: ` LIMIT $<n>::bigint` where the
/// limit is not negative, then ` OFFSET $<m>::bigint` where the offset is not negative,
/// each numbered after the values bound before it.
pub open spec fn page_text(bound: nat, limit: i32, offset: i32) -> Seq<char> {
    let after_limit: nat = if limit > -1 { bound + 1 } else { bound };
    (if limit > -1 {
        " LIMIT $"@ + decimal_nat(bound + 1) + "::bigint"@
    } else {
        Seq::empty()
    }) + (if offset > -1 {
        " OFFSET $"@ + decimal_nat(after_limit + 1) + "::bigint"@
    } else {
        Seq::empty()
    })
}

/// The values that the page clause binds: the limit, then the offset, each only where it
/// is not negative, in decimal.
pub open spec fn page_values(limit: i32, offset: i32) -> Seq<Seq<char>> {
    (if limit > -1 {
        seq![decimal_int(limit as int)]
    } else {
        Seq::empty()
    }) + (if offset > -1 {
        seq![decimal_int(offset as int)]
    } else {
        Seq::empty()
    })
}

/// A page clause binds what it names, numbered after the values bound before it: a limit
/// that is not negative is bound first, as `$<bound + 1>`; an offset that is not negative
/// is bound last, numbered after everything bound before it; a negative limit or offset
/// adds neither text nor value.
pub proof fn law_page_binds_in_order(bound: nat, limit: i32, offset: i32)
    ensures
        page_values(limit, offset).len() == (if limit > -1 { 1int } else { 0int }) + (if offset
            > -1 {
            1int
        } else {
            0int
        }),
        limit > -1 ==> page_values(limit, offset)[0] == decimal_int(limit as int),
        limit > -1 ==> page_text(bound, limit, offset).subrange(
            0,
            (" LIMIT $"@ + decimal_nat(bound + 1) + "::bigint"@).len() as int,
        ) == " LIMIT $"@ + decimal_nat(bound + 1) + "::bigint"@,
        offset > -1 ==> page_values(limit, offset).last() == decimal_int(offset as int),
        offset > -1 ==> exists|head: Seq<char>|
            page_text(bound, limit, offset) == head + " OFFSET $"@ + decimal_nat(
                bound + page_values(limit, offset).len(),
            ) + "::bigint"@,
        limit <= -1 && offset <= -1 ==> page_text(bound, limit, offset).len() == 0
            && page_values(limit, offset).len() == 0,
{
    let l: Seq<char> = if limit > -1 {
        " LIMIT $"@ + decimal_nat(bound + 1) + "::bigint"@
    } else {
        Seq::empty()
    };
    let o: Seq<char> = if offset > -1 {
        " OFFSET $"@ + decimal_nat((if limit > -1 { bound + 1 } else { bound }) + 1) + "::bigint"@
    } else {
        Seq::empty()
    };
    assert(page_text(bound, limit, offset) == l + o);
    if limit > -1 {
        assert((l + o).subrange(0, l.len() as int) =~= l);
    }
    if offset > -1 {
        let head = l;
        assert(page_text(bound, limit, offset) =~= head + " OFFSET $"@ + decimal_nat(
            bound + page_values(limit, offset).len(),
        ) + "::bigint"@);
    }
}

/// The texts of a list of strings.
pub open spec fn views(v: Seq<String>) -> Seq<Seq<char>> {
    v.map_values(|s: String| s@)
}

/// Adds the condition `<column>=$<n><cast>` for the next value, and the value.
pub fn push_condition(
    conditions: &mut Vec<String>,
    values: &mut Vec<String>,
    column: &str,
    cast: &str,
    value: String,
)
    requires
        old(conditions)@.len() == old(values)@.len(),
        old(values)@.len() < u64::MAX,
    ensures
        views(final(conditions)@) == views(old(conditions)@).push(
            condition(column@, (old(values)@.len() + 1) as nat, cast@),
        ),
        views(final(values)@) == views(old(values)@).push(value@),
{
    let mut c = String::from_str(column);
    c.append("=$");
    append_u64(&mut c, values.len() as u64 + 1);
    c.append(cast);
    conditions.push(c);
    values.push(value);
    assert(views(conditions@) =~= views(old(conditions)@).push(
        condition(column@, (old(values)@.len() + 1) as nat, cast@),
    ));
    assert(views(values@) =~= views(old(values)@).push(value@));
}

/// The `WHERE` clause for the conditions gathered so far.
pub fn where_clause(conditions: &Vec<String>) -> (r: String)
    ensures
        r@ == where_text(views(conditions@)),
{
    if conditions.len() == 0 {
        String::new()
    } else {
        let mut r = String::from_str(" WHERE ");
        let joined = join_strings(conditions, " AND ");
        r.append(joined.as_str());
        r
    }
}

/// Appends the page clause to `query` and its values to `values`.
pub fn append_page(query: &mut String, values: &mut Vec<String>, limit: i32, offset: i32)
    requires
        old(values)@.len() + 2 < u64::MAX,
    ensures
        final(query)@ == old(query)@ + page_text(old(values)@.len(), limit, offset),
        views(final(values)@) == views(old(values)@) + page_values(limit, offset),
{
    let ghost q0 = query@;
    let ghost v0 = views(values@);
    let bound = values.len() as u64;
    if limit > -1 {
        query.append(" LIMIT $");
        append_u64(query, bound + 1);
        query.append("::bigint");
        let mut v = String::new();
        append_i64(&mut v, limit as i64);
        values.push(v);
    }
    assert(views(values@) =~= v0 + (if limit > -1 {
        seq![decimal_int(limit as int)]
    } else {
        Seq::empty()
    }));
    if offset > -1 {
        query.append(" OFFSET $");
        append_u64(query, values.len() as u64 + 1);
        query.append("::bigint");
        let mut v = String::new();
        append_i64(&mut v, offset as i64);
        values.push(v);
    }
    assert(views(values@) =~= v0 + page_values(limit, offset));
    assert(query@ =~= q0 + page_text(bound as nat, limit, offset));
}

/// A page of a table's rows, newest first, and how to count them all.
pub struct PageQuery {
    /// `SELECT .. ORDER BY created_at DESC` with the page clause.
    pub select: String,
    /// The values bound to the page clause's placeholders, in order.
    pub binds: Vec<i32>,
    /// `SELECT COUNT(*) FROM <name>`.
    pub count: String,
}

/// The page clause of a query built with placeholders numbered from `$1`: ` LIMIT $1`
/// where the limit is not negative, then ` OFFSET $<n>` where the offset is not negative.
pub open spec fn builder_page_text(limit: i32, offset: i32) -> Seq<char> {
    (if limit > -1 {
        " LIMIT $1"@
    } else {
        Seq::empty()
    }) + (if offset > -1 {
        " OFFSET $"@ + decimal_nat(if limit > -1 { 2 } else { 1 })
    } else {
        Seq::empty()
    })
}

/// The values bound to that page clause.
pub open spec fn builder_page_binds(limit: i32, offset: i32) -> Seq<i32> {
    (if limit > -1 {
        seq![limit]
    } else {
        Seq::empty()
    }) + (if offset > -1 {
        seq![offset]
    } else {
        Seq::empty()
    })
}

/// The listing query that `list` runs on the tables that page with a query builder:
/// every column, newest first, with the page clause; and the count of all rows.
pub fn page_query<T: NameAndFields>(table: &T, limit: i32, offset: i32) -> (r: PageQuery)
    ensures
        r.select@ == select_from(table.spec_fields(), table.spec_name())
            + " ORDER BY created_at DESC"@ + builder_page_text(limit, offset),
        r.binds@ == builder_page_binds(limit, offset),
        r.count@ == "SELECT COUNT(*) FROM "@ + table.spec_name(),
{
    let mut select = select_from_table(table);
    select.append(" ORDER BY created_at DESC");
    let ghost s0 = select@;
    let mut binds: Vec<i32> = Vec::new();
    if limit > -1 {
        select.append(" LIMIT $1");
        binds.push(limit);
    }
    if offset > -1 {
        select.append(" OFFSET $");
        append_u64(&mut select, binds.len() as u64 + 1);
        binds.push(offset);
    }
    assert(binds@ =~= builder_page_binds(limit, offset));
    assert(select@ =~= s0 + builder_page_text(limit, offset));
    let count = around_name(table, "SELECT COUNT(*) FROM ", "");
    proof {
        reveal_strlit("");
    }
    assert(count@ =~= "SELECT COUNT(*) FROM "@ + table.spec_name());
    PageQuery { select, binds, count }
}

} // verus!
