//! Errors of the library.
use vstd::prelude::*;

verus! {

/// rusqlite's error, carried as an opaque value.
#[verifier::external_type_specification]
#[verifier::external_body]
pub struct ExSqlError(rusqlite::Error);

/// What can go wrong while loading tables or running a query.
#[derive(Debug)]
pub enum VcsqlError {
    /// The repository could not be read; holds the cause.
    Git(String),
    /// The relational store refused a statement.
    Sql(rusqlite::Error),
    Io(String),
    InvalidQuery(String),
    RepoNotFound(String),
    TableNotFound(String),
    Other(String),
}

} // verus!
