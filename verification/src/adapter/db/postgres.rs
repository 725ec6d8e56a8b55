//! The PostgreSQL tables of the service.
use vstd::prelude::*;

pub mod query;
pub mod table_basic;
pub mod tables;
pub mod transactor;

use tables::task_comments::TaskComments;
use tables::task_histories::TaskHistories;
use tables::tasks::{tasks_fields, Tasks};
use tables::team_members::TeamMembers;
use tables::teams::Teams;
use tables::users::Users;

verus! {

/// Every table of the service.
pub struct Postgres {
    pub tbl_users: Users,
    pub tbl_teams: Teams,
    pub tbl_team_members: TeamMembers,
    pub tbl_tasks: Tasks,
    pub tbl_task_histories: TaskHistories,
    pub tbl_task_comments: TaskComments,
}

impl Postgres {
    pub fn new() -> (r: Self)
        ensures
            r.tbl_tasks.spec_table().name@ == "tasks"@,
            query::views(r.tbl_tasks.spec_table().fields@) == tasks_fields(),
    {
        Postgres {
            tbl_users: Users::new(),
            tbl_teams: Teams::new(),
            tbl_team_members: TeamMembers::new(),
            tbl_tasks: Tasks::new(),
            tbl_task_histories: TaskHistories::new(),
            tbl_task_comments: TaskComments::new(),
        }
    }
}

} // verus!
