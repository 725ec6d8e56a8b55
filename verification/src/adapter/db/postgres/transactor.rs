//! Transactions: the isolation level a transaction begins with, and how it fails.
use vstd::prelude::*;
use vstd::string::*;

verus! {

/// How a transaction failed: the database refused to begin or commit it (with the
/// database's message), or the work inside it failed.
#[derive(Debug)]
pub enum TransactionError<E> {
    Database(String),
    Operation(E),
}

/// The isolation level a transaction begins with.
#[derive(Clone, Copy, Debug, PartialEq, Eq, Structural)]
pub enum IsolationLevel {
    ReadUncommitted,
    ReadCommitted,
    RepeatableRead,
    Serializable,
    /// No level named: the server's default.
    Unspecified,
}

impl IsolationLevel {
    /// What follows `BEGIN` for this level.
    pub open spec fn sql(self) -> Seq<char> {
        match self {
            IsolationLevel::ReadUncommitted => " ISOLATION LEVEL READ UNCOMMITTED"@,
            IsolationLevel::ReadCommitted => " ISOLATION LEVEL READ COMMITTED"@,
            IsolationLevel::RepeatableRead => " ISOLATION LEVEL REPEATABLE READ"@,
            IsolationLevel::Serializable => " ISOLATION LEVEL SERIALIZABLE"@,
            IsolationLevel::Unspecified => ""@,
        }
    }

    /// What follows `BEGIN` for this level.
    pub fn as_sql(&self) -> (r: &'static str)
        ensures
            r@ == self.sql(),
    {
        match self {
            IsolationLevel::ReadUncommitted => " ISOLATION LEVEL READ UNCOMMITTED",
            IsolationLevel::ReadCommitted => " ISOLATION LEVEL READ COMMITTED",
            IsolationLevel::RepeatableRead => " ISOLATION LEVEL REPEATABLE READ",
            IsolationLevel::Serializable => " ISOLATION LEVEL SERIALIZABLE",
            IsolationLevel::Unspecified => "",
        }
    }

    /// The statement that begins a transaction at this level.
    pub fn begin_statement(&self) -> (r: String)
        ensures
            r@ == "BEGIN"@ + self.sql(),
    {
        let mut r = String::from_str("BEGIN");
        r.append(self.as_sql());
        r
    }
}

} // verus!
