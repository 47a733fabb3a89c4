//! The error taxonomy of the layer: three flat kinds, each carrying the text
//! of the underlying failure.

use crate::driver::{error_message, error_text};
use vstd::prelude::*;
use vstd::string::*;

verus! {

/// A failure reported to the caller. Nothing is retried: every failure
/// surfaces at once under one of these kinds.
#[derive(Debug, PartialEq, Eq)]
pub enum DatabaseError {
    /// The pool or the engine could not be established.
    ConnectionError(String),
    /// Running the statement or decoding a row failed.
    QueryError(String),
    /// The pool was exhausted or no longer alive.
    PoolError(String),
}

impl DatabaseError {
    /// The text of the underlying failure.
    pub open spec fn detail(&self) -> Seq<char> {
        match self {
            DatabaseError::ConnectionError(m) => m@,
            DatabaseError::QueryError(m) => m@,
            DatabaseError::PoolError(m) => m@,
        }
    }

    /// The words that introduce the detail, by kind.
    pub open spec fn label(&self) -> Seq<char> {
        match self {
            DatabaseError::ConnectionError(_) => "Connection error: "@,
            DatabaseError::QueryError(_) => "Query error: "@,
            DatabaseError::PoolError(_) => "Pool error: "@,
        }
    }

    /// The human-readable message: the label of the kind, then the detail.
    pub open spec fn rendered(&self) -> Seq<char> {
        self.label() + self.detail()
    }

    /// Renders the error as the message shown to the caller.
    pub fn to_string(&self) -> (s: String)
        ensures
            s@ == self.rendered(),
    {
        match self {
            DatabaseError::ConnectionError(m) => {
                String::from_str("Connection error: ").concat(m.as_str())
            },
            DatabaseError::QueryError(m) => String::from_str("Query error: ").concat(m.as_str()),
            DatabaseError::PoolError(m) => String::from_str("Pool error: ").concat(m.as_str()),
        }
    }
}

/// The failure of a statement or of a read, with the driver's message.
pub fn query_error(e: &sqlx::Error) -> (error: DatabaseError)
    ensures
        error matches DatabaseError::QueryError(text) && text@ == error_message(*e),
{
    DatabaseError::QueryError(error_text(e))
}

/// The failure to open the database, with the driver's message.
pub fn connection_error(e: &sqlx::Error) -> (error: DatabaseError)
    ensures
        error matches DatabaseError::ConnectionError(text) && text@ == error_message(*e),
{
    DatabaseError::ConnectionError(error_text(e))
}

} // verus!
