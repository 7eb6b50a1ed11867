//! Backend kinds, their SQL dialects, and the startup token that selects one.
//!
//! The placeholder syntax of the `get` statement (`?` for the embedded
//! engine, `$1` for the networked one) is the *only* permitted divergence
//! between the two drivers; everything else — decoding, error wrapping,
//! result shape — is shared code elsewhere in this crate.

use vstd::prelude::*;
use crate::errors::RepoError;

verus! {

/// The supported relational backends.
#[derive(Debug, Clone, Copy, PartialEq, Eq, Structural)]
pub enum DatabaseTypes {
    Sqlite,
    Postgres,
}

/// The statement every backend's `list` runs.
pub open spec fn list_statement_spec() -> Seq<char> {
    "SELECT * FROM \"users\""@
}

/// The statement a backend's `get` runs: fixed text per dialect, with the
/// id as a bound parameter, never interpolated into the text.
pub open spec fn get_statement_spec(db: DatabaseTypes) -> Seq<char> {
    match db {
        DatabaseTypes::Sqlite => "SELECT * FROM \"users\" WHERE id = ?"@,
        DatabaseTypes::Postgres => "SELECT * FROM \"users\" WHERE id = $1"@,
    }
}

/// The statement text `get` sends when asked for a given id. Defined to
/// ignore the id: the text depends on the dialect alone.
pub open spec fn get_query_text(db: DatabaseTypes, id: i64) -> Seq<char> {
    get_statement_spec(db)
}

/// Injection safety: whatever id `get` is asked for — including one chosen
/// to resemble SQL syntax — the statement text sent to the backend is the
/// same; the id only ever travels as a typed bound parameter.
pub proof fn lemma_injection_safety(db: DatabaseTypes, a: i64, b: i64)
    ensures
        get_query_text(db, a) == get_query_text(db, b),
        get_query_text(db, a) == get_statement_spec(db),
{
}

/// The `list` statement, shared by every backend.
pub fn list_statement() -> (r: &'static str)
    ensures
        r@ == list_statement_spec(),
{
    "SELECT * FROM \"users\""
}

/// The `get` statement for one backend's dialect.
pub fn get_statement(db: DatabaseTypes) -> (r: &'static str)
    ensures
        r@ == get_statement_spec(db),
{
    match db {
        DatabaseTypes::Sqlite => "SELECT * FROM \"users\" WHERE id = ?",
        DatabaseTypes::Postgres => "SELECT * FROM \"users\" WHERE id = $1",
    }
}

/// A `get` ready to execute: constant statement text for the dialect, and
/// the id to bind to its single placeholder.
///
/// Keeping the text and the parameter apart is the injection-safety
/// boundary of the whole system: the executor binds `id` as a typed value
/// and never splices it into `sql`.
#[derive(Debug, Clone, Copy)]
pub struct BoundQuery {
    pub sql: &'static str,
    pub id: i64,
}

/// Builds the `get` query for one backend and id: dialect-constant text,
/// id carried separately for binding.
pub fn get_query(db: DatabaseTypes, id: i64) -> (q: BoundQuery)
    ensures
        q.sql@ == get_query_text(db, id),
        q.id == id,
{
    BoundQuery { sql: get_statement(db), id }
}

/// Maps a startup configuration token to a backend kind, or to `Config`
/// for any token outside the recognized set.
pub fn parse_token(token: &str) -> (r: Result<DatabaseTypes, RepoError>)
    ensures
        token@ == "sqlite"@ ==> r == Ok::<DatabaseTypes, RepoError>(DatabaseTypes::Sqlite),
        token@ == "postgres"@ ==> r == Ok::<DatabaseTypes, RepoError>(DatabaseTypes::Postgres),
        token@ != "sqlite"@ && token@ != "postgres"@ ==> r == Err::<DatabaseTypes, RepoError>(
            RepoError::Config,
        ),
{
    proof {
        reveal_strlit("sqlite");
        reveal_strlit("postgres");
        assert("sqlite"@.len() == 6);
        assert("postgres"@.len() == 8);
    }
    let owned = token.to_owned();
    if owned == "sqlite".to_owned() {
        Ok(DatabaseTypes::Sqlite)
    } else if owned == "postgres".to_owned() {
        Ok(DatabaseTypes::Postgres)
    } else {
        Err(RepoError::Config)
    }
}

} // verus!
