//! The `tasks` table and its filtered listing.
use vstd::prelude::*;
use vstd::string::*;
use crate::adapter::db::models::TaskData;
use crate::adapter::db::postgres::query::{
    append_page, condition, page_text, page_values, push_condition, views, where_clause,
    where_text,
};
use crate::adapter::db::postgres::table_basic::TableBasic;
use crate::text::{decimal_nat, join};
use crate::types::uuid_text;

verus! {

/// The status of a task.
#[derive(Clone, Copy, Debug, PartialEq, Eq, Structural)]
pub enum Status {
    Start,
    Todo,
    Done,
    Cancelled,
}

impl Status {
    /// The text of the status as the database stores it.
    pub open spec fn text(self) -> Seq<char> {
        match self {
            Status::Start => "start"@,
            Status::Todo => "todo"@,
            Status::Done => "done"@,
            Status::Cancelled => "cancelled"@,
        }
    }

    /// The text of the status as the database stores it.
    pub fn to_string(&self) -> (r: String)
        ensures
            r@ == self.text(),
    {
        match self {
            Status::Start => String::from_str("start"),
            Status::Todo => String::from_str("todo"),
            Status::Done => String::from_str("done"),
            Status::Cancelled => String::from_str("cancelled"),
        }
    }

    /// Whether `v` is the text of some status.
    pub fn contains_value(v: String) -> (r: bool)
        ensures
            r == status_known(v@),
    {
        let start = Status::Start.to_string();
        let todo = Status::Todo.to_string();
        let done = Status::Done.to_string();
        let cancelled = Status::Cancelled.to_string();
        let r = v == start || v == todo || v == done || v == cancelled;
        proof {
            if r {
                if v@ == Status::Start.text() {
                    assert(status_known(v@));
                } else if v@ == Status::Todo.text() {
                    assert(status_known(v@));
                } else if v@ == Status::Done.text() {
                    assert(status_known(v@));
                } else {
                    assert(v@ == Status::Cancelled.text());
                }
            } else {
                assert forall|s: Status| s.text() != v@ by {
                    match s {
                        Status::Start => {},
                        Status::Todo => {},
                        Status::Done => {},
                        Status::Cancelled => {},
                    }
                }
            }
        }
        r
    }
}

/// Each status has a text of its own, so a stored status reads back as the status that was
/// stored.
pub proof fn law_status_texts_distinct(a: Status, b: Status)
    ensures
        a.text() == b.text() ==> a == b,
{
    reveal_strlit("start");
    reveal_strlit("todo");
    reveal_strlit("done");
    reveal_strlit("cancelled");
    if a.text() == b.text() {
        assert(a.text().len() == b.text().len());
        assert(a.text()[0] == b.text()[0]);
    }
}

/// `v` is the text of one of the statuses.
pub open spec fn status_known(v: Seq<char>) -> bool {
    exists|s: Status| s.text() == v
}

/// The filters of a task listing, in the order they are bound: column, cast and value.
/// The team, the assignee, and the status where it is a known status.
pub open spec fn task_filters(data: TaskData) -> Seq<(Seq<char>, Seq<char>, Seq<char>)> {
    (match data.team_id {
        Some(t) => seq![("team_id"@, "::uuid"@, uuid_text(t.value))],
        None => Seq::empty(),
    }) + (match data.assignee_id {
        Some(a) => seq![("assignee_id"@, "::uuid"@, uuid_text(a.value))],
        None => Seq::empty(),
    }) + (match data.status {
        Some(s) => if status_known(s@) {
            seq![("status"@, "::task_status_enum"@, s@)]
        } else {
            Seq::empty()
        },
        None => Seq::empty(),
    })
}

/// A status that is no known status is ignored: a listing that gives one has the same
/// filters (so the same queries and the same bound values, by `list_query`) as the same
/// listing without a status, and no filter is on the status column.
pub proof fn law_list_query_ignores_unknown_status(with_status: TaskData, without: TaskData)
    requires
        with_status.limit == without.limit,
        with_status.offset == without.offset,
        with_status.team_id == without.team_id,
        with_status.assignee_id == without.assignee_id,
        with_status.status matches Some(s) && !status_known(s@),
        without.status is None,
    ensures
        task_filters(with_status) == task_filters(without),
        forall|i: int|
            0 <= i < task_filters(with_status).len() ==> (#[trigger] task_filters(with_status)[i]).0
                != "status"@,
{
    reveal_strlit("status");
    reveal_strlit("team_id");
    reveal_strlit("assignee_id");
    let f = task_filters(with_status);
    assert forall|i: int| 0 <= i < f.len() implies (#[trigger] f[i]).0 != "status"@ by {
        assert(f[i].0 == "team_id"@ || f[i].0 == "assignee_id"@);
        assert("status"@[0] != "team_id"@[0]);
        assert("status"@[0] != "assignee_id"@[0]);
    }
}

/// Each field of a listing request filters on its own, whatever the others: a given team
/// and a given assignee each add a condition on their column bound to the identifier's
/// text, a known status adds one on the status column bound to its text; a field that is
/// not given (or a status that is not known) adds none. There is one filter per such field
/// and no other, team first, then assignee, then status.
pub proof fn law_list_query_filters_each_field(data: TaskData)
    ensures
        data.team_id matches Some(t) ==> task_filters(data).contains(
            ("team_id"@, "::uuid"@, uuid_text(t.value)),
        ),
        data.assignee_id matches Some(a) ==> task_filters(data).contains(
            ("assignee_id"@, "::uuid"@, uuid_text(a.value)),
        ),
        data.status matches Some(s) ==> (status_known(s@) ==> task_filters(data).contains(
            ("status"@, "::task_status_enum"@, s@),
        )),
        task_filters(data).len() == (if data.team_id is Some { 1int } else { 0int }) + (
        if data.assignee_id is Some {
            1int
        } else {
            0int
        }) + (if data.status matches Some(s) && status_known(s@) {
            1int
        } else {
            0int
        }),
        forall|i: int|
            0 <= i < task_filters(data).len() ==> {
                let f = #[trigger] task_filters(data)[i];
                ||| data.team_id matches Some(t) && f == ("team_id"@, "::uuid"@, uuid_text(t.value))
                ||| data.assignee_id matches Some(a) && f == (
                    "assignee_id"@,
                    "::uuid"@,
                    uuid_text(a.value),
                )
                ||| data.status matches Some(s) && status_known(s@) && f == (
                    "status"@,
                    "::task_status_enum"@,
                    s@,
                )
            },
{
    let f = task_filters(data);
    let t: Seq<(Seq<char>, Seq<char>, Seq<char>)> = match data.team_id {
        Some(t) => seq![("team_id"@, "::uuid"@, uuid_text(t.value))],
        None => Seq::empty(),
    };
    let a: Seq<(Seq<char>, Seq<char>, Seq<char>)> = match data.assignee_id {
        Some(a) => seq![("assignee_id"@, "::uuid"@, uuid_text(a.value))],
        None => Seq::empty(),
    };
    assert(f == t + a + (match data.status {
        Some(s) => if status_known(s@) {
            seq![("status"@, "::task_status_enum"@, s@)]
        } else {
            Seq::empty()
        },
        None => Seq::empty(),
    }));
    if let Some(tv) = data.team_id {
        assert(f[0] == ("team_id"@, "::uuid"@, uuid_text(tv.value)));
    }
    if let Some(av) = data.assignee_id {
        assert(f[t.len() as int] == ("assignee_id"@, "::uuid"@, uuid_text(av.value)));
    }
    if let Some(sv) = data.status {
        if status_known(sv@) {
            assert(f[(t.len() + a.len()) as int] == ("status"@, "::task_status_enum"@, sv@));
        }
    }
}

/// The conditions of the filters, the `i`-th bound to placeholder `i + 1`.
pub open spec fn filter_conditions(f: Seq<(Seq<char>, Seq<char>, Seq<char>)>) -> Seq<Seq<char>> {
    Seq::new(f.len(), |i: int| condition(f[i].0, (i + 1) as nat, f[i].1))
}

/// The values of the filters, in order.
pub open spec fn filter_values(f: Seq<(Seq<char>, Seq<char>, Seq<char>)>) -> Seq<Seq<char>> {
    Seq::new(f.len(), |i: int| f[i].2)
}

/// The filters are bound in order: the `i`-th condition names its column with placeholder
/// `$<i + 1>` and its cast, and the `i`-th bound value is that filter's value; there are
/// as many conditions as values.
pub proof fn law_filter_placeholders_in_order(f: Seq<(Seq<char>, Seq<char>, Seq<char>)>)
    ensures
        filter_conditions(f).len() == f.len(),
        filter_values(f).len() == f.len(),
        forall|i: int|
            0 <= i < f.len() ==> #[trigger] filter_conditions(f)[i] == f[i].0 + "=$"@ + decimal_nat(
                (i + 1) as nat,
            ) + f[i].1,
        forall|i: int| 0 <= i < f.len() ==> #[trigger] filter_values(f)[i] == f[i].2,
{
}

/// The two queries of a task listing and what each binds.
pub struct TaskListQuery {
    /// The page of tasks.
    pub query_common: String,
    /// The number of tasks that pass the filters.
    pub query_count: String,
    /// The values bound to `query_count`.
    pub count_params: Vec<String>,
    /// The values bound to `query_common`.
    pub common_params: Vec<String>,
}

/// The `tasks` table.
pub struct Tasks {
    table_basic: TableBasic,
}

impl Tasks {
    #[verifier::type_invariant]
    spec fn described(self) -> bool {
        &&& self.table_basic.name@ == "tasks"@
        &&& views(self.table_basic.fields@) == tasks_fields()
    }

    pub closed spec fn spec_table(self) -> TableBasic {
        self.table_basic
    }

    pub fn new() -> (r: Tasks)
        ensures
            r.spec_table().name@ == "tasks"@,
            views(r.spec_table().fields@) == tasks_fields(),
    {
        let mut fields: Vec<String> = Vec::new();
        fields.push(String::from_str("task_id"));
        fields.push(String::from_str("name"));
        fields.push(String::from_str("description"));
        fields.push(String::from_str("created_by"));
        fields.push(String::from_str("team_id"));
        fields.push(String::from_str("assignee_id"));
        fields.push(String::from_str("status::text as status"));
        fields.push(String::from_str("created_at"));
        fields.push(String::from_str("updated_at"));
        assert(views(fields@) =~= tasks_fields());
        Tasks { table_basic: TableBasic { name: String::from_str("tasks"), fields } }
    }

    /// The name and columns of the table.
    pub fn table_basic(&self) -> (r: &TableBasic)
        ensures
            r.name@ == "tasks"@,
            views(r.fields@) == tasks_fields(),
    {
        proof {
            use_type_invariant(self);
        }
        &self.table_basic
    }

    /// `<head>tasks<tail>`.
    fn around_name(&self, head: &str, tail: &str) -> (r: String)
        ensures
            r@ == head@ + "tasks"@ + tail@,
    {
        proof {
            use_type_invariant(self);
        }
        let mut r = String::from_str(head);
        r.append(self.table_basic.name.as_str());
        r.append(tail);
        r
    }

    /// The query of `one`: the task with the id bound to `$1`.
    pub fn one_query(&self) -> (r: String)
        ensures
            r@ == "SELECT "@ + join(tasks_fields(), ","@) + " FROM "@ + "tasks"@
                + " WHERE task_id=$1"@,
    {
        proof {
            use_type_invariant(self);
        }
        let mut r = self.table_basic.select_text();
        r.append(" WHERE task_id=$1");
        r
    }

    /// The statement of `create`; it binds name, description, author, team, assignee and
    /// status, and returns the new id.
    pub fn create_query(&self) -> (r: String)
        ensures
            r@ == "INSERT INTO "@ + "tasks"@
                + " (name, description, created_by, team_id, assignee_id, status) VALUES ($1,$2,$3,$4,$5,$6::task_status_enum) RETURNING task_id"@,
    {
        self.around_name(
            "INSERT INTO ",
            " (name, description, created_by, team_id, assignee_id, status) VALUES ($1,$2,$3,$4,$5,$6::task_status_enum) RETURNING task_id",
        )
    }

    /// The statement of `update`; it binds the fields of `create`, then the id.
    pub fn update_query(&self) -> (r: String)
        ensures
            r@ == "UPDATE "@ + "tasks"@
                + " SET name=$1, description=$2, created_by=$3, team_id=$4, assignee_id=$5, status=$6::task_status_enum WHERE task_id=$7"@,
    {
        self.around_name(
            "UPDATE ",
            " SET name=$1, description=$2, created_by=$3, team_id=$4, assignee_id=$5, status=$6::task_status_enum WHERE task_id=$7",
        )
    }

    /// The statement of `delete`: the task with the id bound to `$1`.
    pub fn delete_query(&self) -> (r: String)
        ensures
            r@ == "DELETE FROM "@ + "tasks"@ + " WHERE task_id=$1"@,
    {
        self.around_name("DELETE FROM ", " WHERE task_id=$1")
    }

    /// The queries of `list`: the filters become numbered conditions of a `WHERE` clause
    /// shared by both queries; the page clause follows them in the page query only.
    pub fn list_query(&self, data: TaskData) -> (r: TaskListQuery)
        ensures
            ({
                let f = task_filters(data);
                let w = where_text(filter_conditions(f));
                &&& r.query_count@ == "SELECT COUNT(*) as count FROM "@ + "tasks"@ + w
                &&& r.query_common@ == "SELECT "@ + join(tasks_fields(), ","@) + " FROM "@
                    + "tasks"@ + w + page_text(f.len(), data.limit, data.offset)
                &&& views(r.count_params@) == filter_values(f)
                &&& views(r.common_params@) == filter_values(f) + page_values(
                    data.limit,
                    data.offset,
                )
            }),
    {
        proof {
            use_type_invariant(self);
        }
        let ghost f = task_filters(data);
        let table = &self.table_basic;
        let mut query_common = table.select_text();
        let mut query_count = String::from_str("SELECT COUNT(*) as count FROM ");
        query_count.append(table.name.as_str());
        let mut conditions: Vec<String> = Vec::new();
        let mut params: Vec<String> = Vec::new();
        let ghost mut g: Seq<(Seq<char>, Seq<char>, Seq<char>)> = Seq::empty();
        assert(views(conditions@) =~= filter_conditions(g));
        assert(views(params@) =~= filter_values(g));
        if let Some(team_id) = data.team_id {
            push_condition(&mut conditions, &mut params, "team_id", "::uuid", team_id.to_string());
            proof {
                let e = ("team_id"@, "::uuid"@, uuid_text(team_id.value));
                assert(filter_conditions(g.push(e)) =~= filter_conditions(g).push(
                    condition(e.0, (g.len() + 1) as nat, e.1),
                ));
                assert(filter_values(g.push(e)) =~= filter_values(g).push(e.2));
                g = g.push(e);
            }
        }
        if let Some(assignee_id) = data.assignee_id {
            push_condition(
                &mut conditions,
                &mut params,
                "assignee_id",
                "::uuid",
                assignee_id.to_string(),
            );
            proof {
                let e = ("assignee_id"@, "::uuid"@, uuid_text(assignee_id.value));
                assert(filter_conditions(g.push(e)) =~= filter_conditions(g).push(
                    condition(e.0, (g.len() + 1) as nat, e.1),
                ));
                assert(filter_values(g.push(e)) =~= filter_values(g).push(e.2));
                g = g.push(e);
            }
        }
        if let Some(status) = data.status {
            let ghost sv = status@;
            if Status::contains_value(status.clone()) {
                push_condition(&mut conditions, &mut params, "status", "::task_status_enum", status);
                proof {
                    let e = ("status"@, "::task_status_enum"@, sv);
                    assert(filter_conditions(g.push(e)) =~= filter_conditions(g).push(
                        condition(e.0, (g.len() + 1) as nat, e.1),
                    ));
                    assert(filter_values(g.push(e)) =~= filter_values(g).push(e.2));
                    g = g.push(e);
                }
            }
        }
        assert(g =~= f);
        let where_str = where_clause(&conditions);
        query_common.append(where_str.as_str());
        query_count.append(where_str.as_str());
        let count_params = params.clone();
        append_page(&mut query_common, &mut params, data.limit, data.offset);
        TaskListQuery { query_common, query_count, count_params, common_params: params }
    }
}

/// The columns that a `SELECT` of `tasks` reads.
pub open spec fn tasks_fields() -> Seq<Seq<char>> {
    seq![
        "task_id"@,
        "name"@,
        "description"@,
        "created_by"@,
        "team_id"@,
        "assignee_id"@,
        "status::text as status"@,
        "created_at"@,
        "updated_at"@,
    ]
}

} // verus!
