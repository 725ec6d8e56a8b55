//! The rules of the service: what each request may do and what it answers.
//!
//! Each use case is split where it waits on the database or the mail server: the
//! decisions before and after each wait stand here, the waits themselves run around this
//! library.
use vstd::prelude::*;
use crate::adapter::db::postgres::transactor::TransactionError;
use crate::adapter::db::RepositoryError;
use crate::adapter::jwt::JWTError;
use crate::err_msg::ErrMsg;
use crate::status;
use crate::text::opt_view;

pub mod auth;
pub mod helpers;
pub mod mapper;
pub mod models;
pub mod task_comments;
pub mod tasks;
pub mod teams;
pub mod users;

verus! {

/// A failure of a use case: an internal one (its message goes to the log only), one
/// meant for the client (status, public message, and what to log), or an unknown user.
#[derive(Debug)]
pub enum UseCaseError {
    Common(String),
    Transport { status_code: u16, public_err: String, internal_err: Option<String> },
    UserNotExists,
}

/// A `UseCaseError` with its texts as sequences.
pub enum UseCaseErrorView {
    Common(Seq<char>),
    Transport { status_code: u16, public_err: Seq<char>, internal_err: Option<Seq<char>> },
    UserNotExists,
}

impl View for UseCaseError {
    type V = UseCaseErrorView;

    open spec fn view(&self) -> UseCaseErrorView {
        match self {
            UseCaseError::Common(s) => UseCaseErrorView::Common(s@),
            UseCaseError::Transport { status_code, public_err, internal_err } =>
                UseCaseErrorView::Transport {
                status_code: *status_code,
                public_err: public_err@,
                internal_err: opt_view(*internal_err),
            },
            UseCaseError::UserNotExists => UseCaseErrorView::UserNotExists,
        }
    }
}

/// The error shown to the client with `status` and the text of `msg`, logging nothing.
pub open spec fn shown(status: u16, msg: ErrMsg) -> UseCaseErrorView {
    UseCaseErrorView::Transport { status_code: status, public_err: msg.text(), internal_err: None }
}

/// What a storage failure answers: a missing row is `404` with `NotFoundItem`, any other
/// failure is internal, with the storage error's message.
pub open spec fn repository_error(e: RepositoryError) -> UseCaseErrorView {
    if e is NotFoundRow {
        shown(status::NOT_FOUND, ErrMsg::NotFoundItem)
    } else {
        UseCaseErrorView::Common(e.text())
    }
}

impl UseCaseError {
    /// The error shown to the client with `status` and the text of `msg`, logging nothing.
    pub fn shown(status_code: u16, msg: ErrMsg) -> (r: UseCaseError)
        ensures
            r@ == shown(status_code, msg),
    {
        UseCaseError::Transport { status_code, public_err: msg.to_string(), internal_err: None }
    }

    /// A storage failure: a missing row is shown as `404` with `NotFoundItem`, any other
    /// failure is internal, with the storage error's message.
    pub fn from_repository(e: RepositoryError) -> (r: UseCaseError)
        ensures
            e is NotFoundRow ==> r@ == shown(status::NOT_FOUND, ErrMsg::NotFoundItem),
            !(e is NotFoundRow) ==> r@ == UseCaseErrorView::Common(e.text()),
            r@ == repository_error(e),
    {
        match e {
            RepositoryError::NotFoundRow => UseCaseError::shown(
                status::NOT_FOUND,
                ErrMsg::NotFoundItem,
            ),
            other => UseCaseError::Common(other.to_string()),
        }
    }

    /// A token failure is internal, with its message.
    pub fn from_jwt(e: JWTError) -> (r: UseCaseError)
        ensures
            r@ == UseCaseErrorView::Common(e.text()),
    {
        UseCaseError::Common(e.to_string())
    }

    /// A database failure (its message) is internal.
    pub fn from_database(message: String) -> (r: UseCaseError)
        ensures
            r@ == UseCaseErrorView::Common(message@),
    {
        UseCaseError::Common(message)
    }

    /// A failed transaction: a database failure is internal; a failure of the work inside
    /// is that failure.
    pub fn from_transaction(e: TransactionError<UseCaseError>) -> (r: UseCaseError)
        ensures
            match e {
                TransactionError::Database(m) => r@ == UseCaseErrorView::Common(m@),
                TransactionError::Operation(u) => r == u,
            },
    {
        match e {
            TransactionError::Database(m) => UseCaseError::Common(m),
            TransactionError::Operation(u) => u,
        }
    }

    /// A failed transaction whose work failed in storage: a database failure is
    /// internal; a storage failure is mapped as `from_repository` maps it.
    pub fn from_repository_transaction(e: TransactionError<RepositoryError>) -> (r: UseCaseError)
        ensures
            match e {
                TransactionError::Database(m) => r@ == UseCaseErrorView::Common(m@),
                TransactionError::Operation(f) => {
                    &&& f is NotFoundRow ==> r@ == shown(status::NOT_FOUND, ErrMsg::NotFoundItem)
                    &&& !(f is NotFoundRow) ==> r@ == UseCaseErrorView::Common(f.text())
                },
            },
    {
        match e {
            TransactionError::Database(m) => UseCaseError::Common(m),
            TransactionError::Operation(f) => UseCaseError::from_repository(f),
        }
    }
}

} // verus!

verus! {

/// Every use case of the service.
pub struct UseCase<ES> {
    pub auth: auth::Auth<ES>,
    pub teams: teams::Teams,
    pub tasks: tasks::Tasks,
    pub task_comments: task_comments::TaskComments,
    pub users: users::Users,
}

impl<ES: crate::adapter::email::EmailSender> UseCase<ES> {
    /// The use cases over the given tables, token keys and mail sender; `addr` is the
    /// public address that confirmation links point to.
    pub fn new(
        addr: String,
        db: crate::adapter::db::postgres::Postgres,
        jwt_service: crate::adapter::jwt::Jwt,
        email_sender: ES,
    ) -> (r: Self)
        ensures
            r.auth.spec_addr() == addr@,
            r.auth.spec_jwt() == jwt_service,
    {
        UseCase {
            auth: auth::Auth::new(addr, jwt_service, email_sender, db.tbl_users),
            teams: teams::Teams::new(db.tbl_teams, db.tbl_team_members),
            tasks: tasks::Tasks::new(db.tbl_tasks, db.tbl_task_histories, db.tbl_team_members),
            task_comments: task_comments::TaskComments::new(db.tbl_task_comments),
            users: users::Users::new(db.tbl_users),
        }
    }
}

} // verus!
