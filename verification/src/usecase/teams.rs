//! Teams, and who may invite into them.
use vstd::prelude::*;
use crate::adapter::db::models::{Team as DBTeam, TeamMember as DBTeamMember};
use crate::adapter::db::postgres::tables::team_members::TeamMembers as DBTeamMembers;
use crate::adapter::db::postgres::tables::teams::Teams as DBTeams;
use crate::adapter::db::postgres::tables::users::Role as UserRole;
use crate::err_msg::ErrMsg;
use crate::status;
use crate::text::opt_view;
use crate::types::{DateTime, Uuid};
use super::mapper::{map_list, team_db_to_team_uc, team_member_uc_to_team_member_db};
use super::models::{Team, TeamMember};
use super::{shown, UseCaseError};

verus! {

/// The role names an administrator.
pub open spec fn is_admin(role: Option<Seq<char>>) -> bool {
    role == Some(UserRole::Admin.text())
}

/// Whether the profile may invite into a team: an administrator may invite into any
/// team, anyone else only into a team they created (`owner`, where the team was read).
pub open spec fn invite_allowed(role: Option<Seq<char>>, profile_id: Uuid, owner: Option<Uuid>) -> bool {
    is_admin(role) || owner == Some(profile_id)
}

/// Teams and their members.
pub struct Teams {
    teams_repo: DBTeams,
    team_members_repo: DBTeamMembers,
}

impl Teams {
    pub closed spec fn spec_teams_repo(&self) -> DBTeams {
        self.teams_repo
    }

    pub closed spec fn spec_team_members_repo(&self) -> DBTeamMembers {
        self.team_members_repo
    }

    pub fn new(teams_repo: DBTeams, team_members_repo: DBTeamMembers) -> (r: Self)
        ensures
            r.spec_teams_repo() == teams_repo,
            r.spec_team_members_repo() == team_members_repo,
    {
        Teams { teams_repo, team_members_repo }
    }

    /// The table of teams.
    pub fn teams_repo(&self) -> (r: &DBTeams)
        ensures
            *r == self.spec_teams_repo(),
    {
        &self.teams_repo
    }

    /// The table of memberships.
    pub fn team_members_repo(&self) -> (r: &DBTeamMembers)
        ensures
            *r == self.spec_team_members_repo(),
    {
        &self.team_members_repo
    }

    /// The teams of a page read from the table, in order.
    pub fn list(items: Vec<DBTeam>) -> (r: Vec<Team>)
        ensures
            r@.len() == items@.len(),
            forall|i: int|
                0 <= i < items@.len() ==> {
                    let (a, b) = (#[trigger] r@[i], items@[i]);
                    a.team_id == b.team_id && a.name == b.name && a.created_by == b.created_by
                        && a.created_at == b.created_at && a.updated_at == b.updated_at
                },
    {
        map_list(items, team_db_to_team_uc)
    }

    /// Whether the role alone allows inviting; where it does not, `invite` reads the team
    /// to learn who created it.
    pub fn invite_by_role(profile_role: &Option<String>) -> (r: bool)
        ensures
            r == is_admin(opt_view(*profile_role)),
    {
        match profile_role {
            Some(role) => {
                let admin = UserRole::Admin.to_string();
                *role == admin
            },
            None => false,
        }
    }

    /// The membership that `invite` stores, or the refusal (`403`, `NoRules`) where
    /// neither the role nor the authorship of the team allows it. `owner` is the author of
    /// the team where it was read.
    pub fn invite(
        profile_id: Uuid,
        profile_role: &Option<String>,
        owner: Option<Uuid>,
        team_id: Uuid,
        user_id: Uuid,
    ) -> (r: Result<DBTeamMember, UseCaseError>)
        ensures
            invite_allowed(opt_view(*profile_role), profile_id, owner) ==> (r matches Ok(m)
                && m.team_id == team_id && m.user_id == user_id && m.created_at.spec_secs() == 0
                && m.created_at.spec_nanos() == 0),
            !invite_allowed(opt_view(*profile_role), profile_id, owner) ==> (r matches Err(e)
                && e@ == shown(status::FORBIDDEN, ErrMsg::NoRules)),
    {
        let is_has_access = if Self::invite_by_role(profile_role) {
            true
        } else {
            match owner {
                Some(created_by) => created_by == profile_id,
                None => false,
            }
        };
        if !is_has_access {
            return Err(UseCaseError::shown(status::FORBIDDEN, ErrMsg::NoRules));
        }
        Ok(
            team_member_uc_to_team_member_db(
                TeamMember { team_id, user_id, created_at: DateTime::default() },
            ),
        )
    }
}

/// An administrator may invite into any team, whoever created it; anyone else may
/// invite exactly into the teams they created.
pub proof fn law_invite_access(role: Option<Seq<char>>, profile_id: Uuid, owner: Option<Uuid>)
    ensures
        is_admin(role) ==> invite_allowed(role, profile_id, owner),
        !is_admin(role) ==> (invite_allowed(role, profile_id, owner) <==> owner == Some(
            profile_id,
        )),
{
}

} // verus!
