//! What the HTTP handlers answer for a failed use case.
use vstd::prelude::*;
use vstd::string::*;
use crate::err_msg::ErrMsg;
use crate::status;
use crate::text::{append_u64, decimal_nat};
use crate::usecase::{UseCaseError, UseCaseErrorView};

pub mod auth;
pub mod users;

verus! {

/// A failed use case and the place in the code that reports it.
pub struct HandlerError {
    use_case_err: UseCaseError,
    source: &'static str,
}

/// The answer to a failed use case: the status, the public message, and the line to log
/// (none where there is nothing internal to report).
pub struct ErrorResponse {
    pub status_code: u16,
    pub msg: String,
    pub log_line: Option<String>,
}

/// The status, the public message and the internal message of a failure: an internal
/// failure is a `500` with a generic message and its own message kept for the log; a
/// failure for the client carries its own; an unknown user is a `404` `NotFoundUser`.
pub open spec fn error_parts(e: UseCaseErrorView) -> (u16, Seq<char>, Seq<char>) {
    match e {
        UseCaseErrorView::Common(v) => (
            status::INTERNAL_SERVER_ERROR,
            "server internal error"@,
            v,
        ),
        UseCaseErrorView::Transport { status_code, public_err, internal_err } => (
            status_code,
            public_err,
            match internal_err {
                Some(v) => v,
                None => Seq::empty(),
            },
        ),
        UseCaseErrorView::UserNotExists => (status::NOT_FOUND, ErrMsg::NotFoundUser.text(), Seq::empty()),
    }
}

/// The log line of a failure: `<source> (<status>) -> <internal message>`.
pub open spec fn log_line(source: Seq<char>, status_code: u16, internal: Seq<char>) -> Seq<char> {
    source + " ("@ + decimal_nat(status_code as nat) + ") -> "@ + internal
}

/// Whether `r` is the answer to the failure `e` reported at `source`: the status and the
/// public message of `error_parts`, and a log line exactly where there is something
/// internal to report.
pub open spec fn error_answer(r: ErrorResponse, e: UseCaseErrorView, source: Seq<char>) -> bool {
    let (code, public, internal) = error_parts(e);
    &&& r.status_code == code
    &&& r.msg@ == public
    &&& internal.len() == 0 ==> r.log_line is None
    &&& internal.len() != 0 ==> (r.log_line matches Some(l) && l@ == log_line(
        source,
        code,
        internal,
    ))
}

impl HandlerError {
    pub closed spec fn spec_error(&self) -> UseCaseErrorView {
        self.use_case_err@
    }

    pub closed spec fn spec_source(&self) -> Seq<char> {
        self.source@
    }

    pub fn new(use_case_err: UseCaseError, source: &'static str) -> (r: Self)
        ensures
            r.spec_error() == use_case_err@,
            r.spec_source() == source@,
    {
        HandlerError { use_case_err, source }
    }

    /// The answer to the failure, and what to log.
    pub fn into_response(self) -> (r: ErrorResponse)
        ensures
            ({
                let (code, public, internal) = error_parts(self.spec_error());
                &&& r.status_code == code
                &&& r.msg@ == public
                &&& internal.len() == 0 ==> r.log_line is None
                &&& internal.len() != 0 ==> (r.log_line matches Some(l) && l@ == log_line(
                    self.spec_source(),
                    code,
                    internal,
                ))
            }),
    {
        let mut public_error_result = String::from_str("server internal error");
        let mut internal_error_result = String::new();
        let mut status_code_result = status::INTERNAL_SERVER_ERROR;
        match self.use_case_err {
            UseCaseError::Common(v) => {
                internal_error_result = v;
            },
            UseCaseError::Transport { status_code, public_err, internal_err } => {
                status_code_result = status_code;
                public_error_result = public_err;
                if let Some(v) = internal_err {
                    internal_error_result = v;
                }
            },
            UseCaseError::UserNotExists => {
                public_error_result = ErrMsg::NotFoundUser.to_string();
                status_code_result = status::NOT_FOUND;
            },
        }
        let log_line = if !internal_error_result.as_str().is_empty() {
            let mut l = String::from_str(self.source);
            l.append(" (");
            append_u64(&mut l, status_code_result as u64);
            l.append(") -> ");
            l.append(internal_error_result.as_str());
            Some(l)
        } else {
            None
        };
        ErrorResponse { status_code: status_code_result, msg: public_error_result, log_line }
    }
}

/// The total of a listing as the responses carry it: cast to `u32`.
pub fn list_total(total: i64) -> (r: u32)
    ensures
        r == total as u32,
{
    total as u32
}

/// An internal failure never shows its message: the client gets a `500` with the generic
/// message, and the message goes to the log.
pub proof fn law_internal_errors_stay_internal(message: Seq<char>)
    ensures
        error_parts(UseCaseErrorView::Common(message)).0 == status::INTERNAL_SERVER_ERROR,
        error_parts(UseCaseErrorView::Common(message)).1 == "server internal error"@,
        error_parts(UseCaseErrorView::Common(message)).2 == message,
{
}

/// A failure meant for the client keeps its own status and public message, whatever its
/// internal message; that internal message, if any, is what goes to the log. An unknown
/// user is a `404` with `NotFoundUser`.
pub proof fn law_client_failures_keep_their_answer(
    status_code: u16,
    public_err: Seq<char>,
    internal_err: Option<Seq<char>>,
)
    ensures
        error_parts(UseCaseErrorView::Transport { status_code, public_err, internal_err }).0
            == status_code,
        error_parts(UseCaseErrorView::Transport { status_code, public_err, internal_err }).1
            == public_err,
        internal_err matches Some(i) ==> error_parts(
            UseCaseErrorView::Transport { status_code, public_err, internal_err },
        ).2 == i,
        internal_err is None ==> error_parts(
            UseCaseErrorView::Transport { status_code, public_err, internal_err },
        ).2.len() == 0,
        error_parts(UseCaseErrorView::UserNotExists).0 == status::NOT_FOUND,
        error_parts(UseCaseErrorView::UserNotExists).1 == ErrMsg::NotFoundUser.text(),
{
}

} // verus!
