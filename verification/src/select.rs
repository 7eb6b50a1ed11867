//! The backend selector: from a startup configuration token and a
//! connection URL to one live, shared repository handle.

use vstd::prelude::*;
use crate::dialect::{DatabaseTypes, parse_token};
use crate::errors::RepoError;
use crate::repo::{postgres_url_accepted, sqlite_url_accepted, Repo, RepoHandle};

verus! {

/// Maps the startup configuration to exactly one constructed backend
/// driver behind a shared handle.
///
/// Selection succeeds exactly when the token is recognized and the chosen
/// engine's option parser accepts the URL; otherwise it yields `Config`
/// and constructs no driver. Construction itself is lazy and never touches
/// the backend, so an unreachable URL does not fail here.
pub fn select_backend(token: &str, url: &str) -> (r: Result<RepoHandle, RepoError>)
    ensures
        r is Ok <==> (token@ == "sqlite"@ && sqlite_url_accepted(url@)) || (token@
            == "postgres"@ && postgres_url_accepted(url@)),
        r matches Err(e) ==> e == RepoError::Config,
        r matches Ok(h) ==> (token@ == "sqlite"@ ==> h.db_kind() == DatabaseTypes::Sqlite) && (
        token@ == "postgres"@ ==> h.db_kind() == DatabaseTypes::Postgres),
{
    let db = match parse_token(token) {
        Ok(db) => db,
        Err(e) => {
            return Err(e);
        },
    };
    let repo = match Repo::new(db, url) {
        Ok(repo) => repo,
        Err(e) => {
            return Err(e);
        },
    };
    Ok(RepoHandle::new(repo))
}

} // verus!
