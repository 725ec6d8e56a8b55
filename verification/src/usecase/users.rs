//! Users: listing, creating, changing and removing them.
use vstd::prelude::*;
use vstd::string::*;
use crate::adapter::db::models::{User as UserDB, UserView};
use crate::adapter::db::postgres::tables::users::Users as DBUsers;
use crate::status;
use crate::text::{clone_opt, opt_view};
use crate::types::{DateTime, Uuid};
use super::helpers::{argon2_verifies, password_hash};
use super::mapper::{map_list, user_db_to_user_uc};
use super::models::{User, UserCreate, UserUpdate};
use super::{UseCaseError, UseCaseErrorView};

verus! {

/// A change of a user with its texts as sequences.
pub struct UserUpdateView {
    pub user_id: Uuid,
    pub email: Option<Seq<char>>,
    pub password: Option<Seq<char>>,
    pub name: Option<Seq<char>>,
    pub email_code: Option<Seq<char>>,
    pub role: Option<Seq<char>>,
    pub avatar: Option<Seq<char>>,
    pub is_remove_avatar: bool,
}

impl View for UserUpdate {
    type V = UserUpdateView;

    open spec fn view(&self) -> UserUpdateView {
        UserUpdateView {
            user_id: self.user_id,
            email: opt_view(self.email),
            password: opt_view(self.password),
            name: opt_view(self.name),
            email_code: opt_view(self.email_code),
            role: opt_view(self.role),
            avatar: opt_view(self.avatar),
            is_remove_avatar: self.is_remove_avatar,
        }
    }
}

/// The given value where there is one, else the current one.
pub open spec fn given_or<T>(given: Option<T>, current: T) -> T {
    match given {
        Some(v) => v,
        None => current,
    }
}

/// The given value (as `Some`) where there is one, else the current one.
pub open spec fn given_or_opt<T>(given: Option<T>, current: Option<T>) -> Option<T> {
    match given {
        Some(v) => Some(v),
        None => current,
    }
}

/// The stored user after a change: each given field replaces the stored one (the password
/// by `password_hash`, its hash); the avatar is dropped where removal is asked and
/// replaced where a new one is given. The id and the instants stay.
pub open spec fn merged(current: UserView, update: UserUpdateView, password_hash: Seq<char>) -> UserView {
    UserView {
        user_id: current.user_id,
        email: given_or(update.email, current.email),
        password: if update.password is Some { password_hash } else { current.password },
        name: given_or_opt(update.name, current.name),
        email_code: given_or_opt(update.email_code, current.email_code),
        avatar: given_or_opt(
            update.avatar,
            if update.is_remove_avatar { None } else { current.avatar },
        ),
        role: given_or_opt(update.role, current.role),
        created_at: current.created_at,
        updated_at: current.updated_at,
    }
}

/// What `update` does once the stored user is read: the user to write, whether to write
/// it (only where something changed), and the file of the former avatar to remove after
/// the write.
pub struct UpdatePlan {
    pub user: UserDB,
    pub write: bool,
    pub remove_file: Option<String>,
}

/// Whether two stored users agree in every field.
pub fn same_user(a: &UserDB, b: &UserDB) -> (r: bool)
    ensures
        r == (a@ == b@),
{
    let same_opt = |x: &Option<String>, y: &Option<String>| -> (s: bool)
        ensures
            s == (opt_view(*x) == opt_view(*y)),
        {
            match (x, y) {
                (Some(p), Some(q)) => *p == *q,
                (None, None) => true,
                _ => false,
            }
        };
    a.user_id == b.user_id && a.email == b.email && a.password == b.password && same_opt(
        &a.name,
        &b.name,
    ) && same_opt(&a.email_code, &b.email_code) && same_opt(&a.avatar, &b.avatar) && same_opt(
        &a.role,
        &b.role,
    ) && a.created_at.same(&b.created_at) && a.updated_at.same(&b.updated_at)
}

/// Users.
pub struct Users {
    users_repo: DBUsers,
}

impl Users {
    pub closed spec fn spec_users_repo(&self) -> DBUsers {
        self.users_repo
    }

    pub fn new(users_repo: DBUsers) -> (r: Self)
        ensures
            r.spec_users_repo() == users_repo,
    {
        Users { users_repo }
    }

    /// The table of users.
    pub fn users_repo(&self) -> (r: &DBUsers)
        ensures
            *r == self.spec_users_repo(),
    {
        &self.users_repo
    }

    /// The users of a page read from the table, in order.
    pub fn list(items: Vec<UserDB>) -> (r: Vec<User>)
        ensures
            r@.len() == items@.len(),
            forall|i: int|
                0 <= i < items@.len() ==> {
                    let (a, b) = (#[trigger] r@[i], items@[i]);
                    a.user_id == b.user_id && a.email == b.email && a.password == b.password
                        && a.name == b.name && a.email_code == b.email_code && a.avatar
                        == b.avatar && a.role == b.role && a.created_at == b.created_at
                        && a.updated_at == b.updated_at
                },
    {
        let r = map_list(items, user_db_to_user_uc);
        r
    }

    /// Hashes a password for storing; a failure is internal, with the hasher's message.
    fn create_password_hash(pass: &str) -> (r: Result<String, UseCaseError>)
        ensures
            r matches Ok(h) ==> argon2_verifies(pass@, h@),
            r matches Err(e) ==> exists|m: Seq<char>|
                e@ == UseCaseErrorView::Common("failed to create password-hash: "@ + m),
            pass@.len() * 4 <= 0xFFFF_FFFF ==> r is Ok,
    {
        match password_hash(pass) {
            Ok(h) => Ok(h),
            Err(e) => {
                let mut m = String::from_str("failed to create password-hash: ");
                m.append(e.as_str());
                Err(UseCaseError::Common(m))
            },
        }
    }

    /// The user that `create` stores: refused (`400`) without an address or without a
    /// password; otherwise the given fields, the password replaced by its hash, with the
    /// nil id and both instants at the epoch (the table assigns them).
    pub fn create(user: UserCreate) -> (r: Result<UserDB, UseCaseError>)
        ensures
            user.email@.len() == 0 ==> (r matches Err(e) && e@ == UseCaseErrorView::Transport {
                status_code: status::BAD_REQUEST,
                public_err: "email is require"@,
                internal_err: None,
            }),
            user.email@.len() != 0 && user.password@.len() == 0 ==> (r matches Err(e) && e@
                == UseCaseErrorView::Transport {
                status_code: status::BAD_REQUEST,
                public_err: "password is require"@,
                internal_err: None,
            }),
            user.email@.len() != 0 && user.password@.len() != 0 ==> match r {
                Ok(u) => {
                    &&& u.user_id.value == 0
                    &&& u@.email == user.email@
                    &&& argon2_verifies(user.password@, u@.password)
                    &&& u.name == user.name && u.email_code == user.email_code
                    &&& u.avatar == user.avatar && u.role == user.role
                    &&& u.created_at.spec_secs() == 0 && u.created_at.spec_nanos() == 0
                    &&& u.updated_at.spec_secs() == 0 && u.updated_at.spec_nanos() == 0
                },
                Err(e) => exists|m: Seq<char>|
                    e@ == UseCaseErrorView::Common("failed to create password-hash: "@ + m),
            },
            user.email@.len() != 0 && user.password@.len() != 0 && user.password@.len() * 4
                <= 0xFFFF_FFFF ==> r is Ok,
    {
        if user.email.as_str().is_empty() {
            return Err(
                UseCaseError::Transport {
                    status_code: status::BAD_REQUEST,
                    public_err: String::from_str("email is require"),
                    internal_err: None,
                },
            );
        }
        if user.password.as_str().is_empty() {
            return Err(
                UseCaseError::Transport {
                    status_code: status::BAD_REQUEST,
                    public_err: String::from_str("password is require"),
                    internal_err: None,
                },
            );
        }
        let hashed = Self::create_password_hash(user.password.as_str())?;
        Ok(
            UserDB {
                user_id: Default::default(),
                email: user.email,
                password: hashed,
                name: user.name,
                email_code: user.email_code,
                avatar: user.avatar,
                role: user.role,
                created_at: DateTime::default(),
                updated_at: DateTime::default(),
            },
        )
    }

    /// The stored user after the change, the new password (if any) already hashed.
    pub fn apply_update(current: &UserDB, update: UserUpdate, hashed_password: Option<String>) -> (r: UserDB)
        requires
            update.password is Some <==> hashed_password is Some,
        ensures
            r@ == merged(
                current@,
                update@,
                match hashed_password {
                    Some(h) => h@,
                    None => current@.password,
                },
            ),
    {
        let mut copy = current.clone();
        if let Some(v) = update.email {
            copy.email = v;
        }
        if let Some(v) = hashed_password {
            copy.password = v;
        }
        if let Some(v) = update.name {
            copy.name = Some(v);
        }
        if let Some(v) = update.email_code {
            copy.email_code = Some(v);
        }
        if let Some(v) = update.role {
            copy.role = Some(v);
        }
        if update.is_remove_avatar && current.avatar.is_some() {
            copy.avatar = None;
        }
        if let Some(v) = update.avatar {
            copy.avatar = Some(v);
        }
        copy
    }

    /// What `update` does once the stored user is read: the given password is hashed (a
    /// failure is internal), the change merged; the user is written only where it
    /// changed, and then the former avatar's file, if there was one, is removed.
    pub fn update(current: UserDB, update: UserUpdate) -> (r: Result<UpdatePlan, UseCaseError>)
        ensures
            match r {
                Ok(plan) => {
                    &&& (exists|h: Seq<char>| {
                        &&& plan.user@ == merged(current@, update@, h)
                        &&& (update@.password matches Some(p) ==> argon2_verifies(p, h))
                    })
                    &&& plan.write == (plan.user@ != current@)
                    &&& opt_view(plan.remove_file) == (if plan.write {
                        current@.avatar
                    } else {
                        None
                    })
                },
                Err(e) => {
                    &&& update@.password is Some
                    &&& exists|m: Seq<char>|
                        e@ == UseCaseErrorView::Common("failed to create password-hash: "@ + m)
                },
            },
            (update@.password matches Some(p) ==> p.len() * 4 <= 0xFFFF_FFFF) ==> r is Ok,
    {
        let ghost uv = update@;
        let hashed = match &update.password {
            Some(p) => Some(Self::create_password_hash(p.as_str())?),
            None => None,
        };
        let ghost h = match &hashed {
            Some(x) => x@,
            None => current@.password,
        };
        let user = Self::apply_update(&current, update, hashed);
        let write = !same_user(&current, &user);
        let remove_file = if write {
            clone_opt(&current.avatar)
        } else {
            None
        };
        assert(uv.password matches Some(p) ==> argon2_verifies(p, h));
        Ok(UpdatePlan { user, write, remove_file })
    }

    /// The file to remove after a user is deleted: the user's avatar, if any.
    pub fn delete_file(user: &UserDB) -> (r: Option<String>)
        ensures
            r == user.avatar,
    {
        clone_opt(&user.avatar)
    }

    /// The failure to remove a file after the write, with the path and the reason.
    pub fn remove_file_failed(path: &str, reason: &str) -> (r: UseCaseError)
        ensures
            r@ == UseCaseErrorView::Common(
                "failed to remove file ("@ + path@ + "): "@ + reason@,
            ),
    {
        let mut m = String::from_str("failed to remove file (");
        m.append(path);
        m.append("): ");
        m.append(reason);
        UseCaseError::Common(m)
    }
}

/// A change that gives nothing and asks no removal leaves the user as stored, so `update`
/// writes nothing.
pub proof fn law_empty_update_changes_nothing(current: UserView, update: UserUpdateView, h: Seq<char>)
    requires
        update.email is None,
        update.password is None,
        update.name is None,
        update.email_code is None,
        update.role is None,
        update.avatar is None,
        !update.is_remove_avatar,
    ensures
        merged(current, update, h) == current,
{
}

/// Applying the same change twice gives what applying it once gives.
pub proof fn law_update_idempotent(current: UserView, update: UserUpdateView, h: Seq<char>)
    ensures
        merged(merged(current, update, h), update, h) == merged(current, update, h),
{
}

/// A change never touches the id or the instants; a given avatar is always the one that
/// stays, and asking removal without a new avatar leaves none.
pub proof fn law_update_keeps_identity(current: UserView, update: UserUpdateView, h: Seq<char>)
    ensures
        merged(current, update, h).user_id == current.user_id,
        merged(current, update, h).created_at == current.created_at,
        merged(current, update, h).updated_at == current.updated_at,
        update.avatar matches Some(a) ==> merged(current, update, h).avatar == Some(a),
        update.is_remove_avatar && update.avatar is None ==> merged(current, update, h).avatar
            is None,
{
}

/// A change sets exactly what it gives: each given field replaces the stored one (a new
/// password by its hash), each field not given keeps the stored value, and a change that
/// gives an address other than the stored one leaves a different user, which `update` then
/// writes.
pub proof fn law_update_sets_given_fields(current: UserView, update: UserUpdateView, h: Seq<char>)
    ensures
        update.email matches Some(e) ==> merged(current, update, h).email == e,
        update.email is None ==> merged(current, update, h).email == current.email,
        update.password is Some ==> merged(current, update, h).password == h,
        update.password is None ==> merged(current, update, h).password == current.password,
        update.name matches Some(n) ==> merged(current, update, h).name == Some(n),
        update.name is None ==> merged(current, update, h).name == current.name,
        update.email_code matches Some(c) ==> merged(current, update, h).email_code == Some(c),
        update.email_code is None ==> merged(current, update, h).email_code == current.email_code,
        update.role matches Some(r) ==> merged(current, update, h).role == Some(r),
        update.role is None ==> merged(current, update, h).role == current.role,
        update.avatar is None && !update.is_remove_avatar ==> merged(current, update, h).avatar
            == current.avatar,
        update.email matches Some(e) && e != current.email ==> merged(current, update, h)
            != current,
{
    if update.email matches Some(e) && e != current.email {
        assert(merged(current, update, h).email != current.email);
    }
}

} // verus!
