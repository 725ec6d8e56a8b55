//! An error with a status for the client, a public message and an internal message.
use vstd::prelude::*;
use vstd::string::*;
use crate::status::{status_code_display, status_code_text, INTERNAL_SERVER_ERROR};

verus! {

/// An error with an HTTP status, a message for the client and a message for the log.
#[derive(Debug)]
pub struct CustomError {
    status_code: u16,
    public_msg: String,
    internal_error_msg: String,
}

impl CustomError {
    #[verifier::type_invariant]
    spec fn valid_status(self) -> bool {
        100 <= self.status_code < 1000
    }

    pub closed spec fn spec_status_code(&self) -> u16 {
        self.status_code
    }

    pub closed spec fn spec_public_msg(&self) -> Seq<char> {
        self.public_msg@
    }

    pub closed spec fn spec_internal_error_msg(&self) -> Seq<char> {
        self.internal_error_msg@
    }

    /// An error with the status (a valid HTTP status code) and both messages.
    pub fn new(status_code: u16, public_msg: String, internal_error_msg: String) -> (r: Self)
        requires
            100 <= status_code < 1000,
        ensures
            r.spec_status_code() == status_code,
            r.spec_public_msg() == public_msg@,
            r.spec_internal_error_msg() == internal_error_msg@,
    {
        CustomError { status_code, public_msg, internal_error_msg }
    }

    /// An internal error (`500`) whose message is both the public and the internal one.
    pub fn from_string(value: String) -> (r: Self)
        ensures
            r.spec_status_code() == INTERNAL_SERVER_ERROR,
            r.spec_public_msg() == value@,
            r.spec_internal_error_msg() == value@,
    {
        CustomError {
            status_code: INTERNAL_SERVER_ERROR,
            public_msg: value.clone(),
            internal_error_msg: value,
        }
    }

    /// An internal error (`500`) whose message is both the public and the internal one.
    pub fn from_str(value: &str) -> (r: Self)
        ensures
            r.spec_status_code() == INTERNAL_SERVER_ERROR,
            r.spec_public_msg() == value@,
            r.spec_internal_error_msg() == value@,
    {
        CustomError {
            status_code: INTERNAL_SERVER_ERROR,
            public_msg: String::from_str(value),
            internal_error_msg: String::from_str(value),
        }
    }

    /// The answer to the client: the status and the public message only.
    pub fn into_response(self) -> (r: (u16, String))
        ensures
            r.0 == self.spec_status_code(),
            r.1@ == self.spec_public_msg(),
    {
        (self.status_code, self.public_msg)
    }

    /// The description of the error, with the status as `http::StatusCode` writes it.
    pub fn to_string(&self) -> (r: String)
        ensures
            r@ == "Custom error. status code - "@ + status_code_text(self.spec_status_code())
                + ", public msg - "@ + self.spec_public_msg() + ", internal error msg - "@
                + self.spec_internal_error_msg(),
    {
        proof {
            use_type_invariant(self);
        }
        let mut r = String::from_str("Custom error. status code - ");
        let code = status_code_display(self.status_code);
        r.append(code.as_str());
        r.append(", public msg - ");
        r.append(self.public_msg.as_str());
        r.append(", internal error msg - ");
        r.append(self.internal_error_msg.as_str());
        r
    }
}

} // verus!
