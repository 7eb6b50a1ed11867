//! The error taxonomy of the data-access layer.
//!
//! Absence of a row is deliberately *not* represented here: `get` reports it
//! as `Ok(None)`, a valid outcome distinct from every failure.

use vstd::prelude::*;

verus! {

/// Everything a repository operation or the backend selector can fail with.
///
/// - `Config`: unrecognized backend token, or a connection URL the chosen
///   engine's driver refuses to parse. Raised only at construction time.
/// - `Connection`: the backend was unreachable when a statement was first
///   executed (construction is lazy and never connects).
/// - `Query`: the backend rejected a statement.
/// - `Decode`: a returned row did not match the expected `users` shape.
#[derive(Debug, Clone, Copy, PartialEq, Eq, Structural)]
pub enum RepoError {
    Config,
    Connection,
    Query,
    Decode,
}

/// How the execution of one fixed statement can fail, as the surrounding
/// application observes it at the driver boundary: either the backend could
/// not be reached, or it rejected the statement.
#[derive(Debug, Clone, Copy, PartialEq, Eq, Structural)]
pub enum QueryFailure {
    Unreachable,
    Rejected,
}

/// The repository error a given statement-execution failure surfaces as.
pub open spec fn failure_error(f: QueryFailure) -> RepoError {
    match f {
        QueryFailure::Unreachable => RepoError::Connection,
        QueryFailure::Rejected => RepoError::Query,
    }
}

impl QueryFailure {
    /// Turns a statement-execution failure into the error the caller sees.
    pub fn into_error(self) -> (r: RepoError)
        ensures
            r == failure_error(self),
    {
        match self {
            QueryFailure::Unreachable => RepoError::Connection,
            QueryFailure::Rejected => RepoError::Query,
        }
    }
}

impl RepoError {
    /// A short human-readable description, one per variant.
    pub fn message(&self) -> (r: &'static str)
        ensures
            *self is Config ==> r@ == "unrecognized backend or invalid connection URL"@,
            *self is Connection ==> r@ == "backend unreachable"@,
            *self is Query ==> r@ == "backend rejected the statement"@,
            *self is Decode ==> r@ == "row did not match the expected users shape"@,
    {
        match self {
            RepoError::Config => "unrecognized backend or invalid connection URL",
            RepoError::Connection => "backend unreachable",
            RepoError::Query => "backend rejected the statement",
            RepoError::Decode => "row did not match the expected users shape",
        }
    }
}

} // verus!
