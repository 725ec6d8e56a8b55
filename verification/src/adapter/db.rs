//! Storage: the records, the tables and the queries over them.
use vstd::prelude::*;
use crate::text::{append_u64, decimal_nat};
use vstd::string::*;

pub mod models;
pub mod postgres;
pub mod traits;
pub mod transactor;

verus! {

/// A failure of a storage operation. The variants that wrap a database error carry that
/// error's message.
#[derive(Debug)]
pub enum RepositoryError {
    FailedToQuery(String),
    FailedToCount(String),
    FailedToInsert(String),
    FailedToUpdate(String),
    FailedToDelete(String),
    NotFoundRow,
    ExpectedOneRow(u64),
    /// Reading a value out of a returned row failed.
    Common(String),
    /// Beginning or committing a transaction failed.
    TransactionError(String),
}

impl RepositoryError {
    /// The message of the error.
    pub open spec fn text(&self) -> Seq<char> {
        match self {
            RepositoryError::FailedToQuery(e) => "failed to query: "@ + e@,
            RepositoryError::FailedToCount(e) => "failed to count: "@ + e@,
            RepositoryError::FailedToInsert(e) => "failed to insert: "@ + e@,
            RepositoryError::FailedToUpdate(e) => "failed to update: "@ + e@,
            RepositoryError::FailedToDelete(e) => "failed to delete: "@ + e@,
            RepositoryError::NotFoundRow => "not found row"@,
            RepositoryError::ExpectedOneRow(n) => "expected one row, but has "@ + decimal_nat(
                *n as nat,
            ),
            RepositoryError::Common(e) => e@,
            RepositoryError::TransactionError(e) => "failed to run transaction: "@ + e@,
        }
    }

    /// The message of the error.
    pub fn to_string(&self) -> (r: String)
        ensures
            r@ == self.text(),
    {
        match self {
            RepositoryError::FailedToQuery(e) => String::from_str("failed to query: ").concat(
                e.as_str(),
            ),
            RepositoryError::FailedToCount(e) => String::from_str("failed to count: ").concat(
                e.as_str(),
            ),
            RepositoryError::FailedToInsert(e) => String::from_str("failed to insert: ").concat(
                e.as_str(),
            ),
            RepositoryError::FailedToUpdate(e) => String::from_str("failed to update: ").concat(
                e.as_str(),
            ),
            RepositoryError::FailedToDelete(e) => String::from_str("failed to delete: ").concat(
                e.as_str(),
            ),
            RepositoryError::NotFoundRow => String::from_str("not found row"),
            RepositoryError::ExpectedOneRow(n) => {
                let mut s = String::from_str("expected one row, but has ");
                append_u64(&mut s, *n);
                s
            },
            RepositoryError::Common(e) => e.clone(),
            RepositoryError::TransactionError(e) => String::from_str(
                "failed to run transaction: ",
            ).concat(e.as_str()),
        }
    }
}

/// What an update or a delete of one row concludes from the number of rows it touched:
/// success for exactly one, `ExpectedOneRow` otherwise.
pub fn expect_one_row(rows: u64) -> (r: Result<(), RepositoryError>)
    ensures
        r is Ok <==> rows == 1,
        r matches Err(e) ==> e == RepositoryError::ExpectedOneRow(rows),
{
    if rows == 1 {
        Ok(())
    } else {
        Err(RepositoryError::ExpectedOneRow(rows))
    }
}

} // verus!
