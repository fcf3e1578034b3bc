//! How a statement on the table can fail, and how an operation can.

use vstd::prelude::*;

verus! {

/// Why a statement gave no answer.
#[derive(Debug, PartialEq, Eq)]
pub enum QueryError {
    /// The statement ran and no row met it.
    NotFound,
    /// The table could not carry the statement out.
    Failed,
    /// No connection to the table could be had, so the statement never ran.
    NoConnection,
}

/// Why an operation failed. That no wallet was found is not among the
/// reasons: an operation that finds none succeeds with an empty result.
#[derive(Debug, PartialEq, Eq)]
pub enum StorageError {
    /// The table could not do what was asked. Nothing more is told.
    Failed,
    /// No connection to the table could be had. A caller may try again later.
    PoolUnavailable,
}

impl QueryError {
    /// The failure that an operation ends with when a statement failed in
    /// this way: the want of a connection stays apart, all else is one.
    pub open spec fn failure(self) -> StorageError {
        match self {
            QueryError::NoConnection => StorageError::PoolUnavailable,
            _ => StorageError::Failed,
        }
    }

    /// The failure that an operation ends with for this one.
    pub fn into_failure(self) -> (e: StorageError)
        ensures
            e == self.failure(),
    {
        match self {
            QueryError::NoConnection => StorageError::PoolUnavailable,
            _ => StorageError::Failed,
        }
    }
}

} // verus!
