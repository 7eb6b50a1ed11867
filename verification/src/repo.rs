//! The backend drivers, the shared response logic, and the handle.
//!
//! Each driver owns one lazily-connecting engine pool. The pools and their
//! construction come from the database driver crate and sit behind a thin
//! trusted boundary; everything that decides *what* a repository call
//! returns — statement text, decoding, error mapping — is verified here and
//! shared between the backends.

use vstd::prelude::*;
use crate::dialect::{BoundQuery, DatabaseTypes, get_query_text, list_statement_spec};
use crate::entity::{RawRow, User, decoded_user, decoded_users, row_complete, rows_complete};
use crate::entity::{decode_rows, decode_row};
use crate::errors::{QueryFailure, RepoError, failure_error};

verus! {

#[verifier::external_type_specification]
#[verifier::external_body]
pub struct ExSqlxError(sqlx::Error);

/// A lazily-connecting connection pool of the embedded engine, opaque to
/// the verifier (sqlx's `Pool<DB>` itself cannot be declared to it: the
/// bound on its type parameter is an outside trait). The surrounding
/// application reaches the pool through the public field to execute the
/// prepared statements.
#[verifier::external_body]
pub struct SqlitePool {
    pub pool: sqlx::sqlite::SqlitePool,
}

/// A lazily-connecting connection pool of the networked engine, opaque to
/// the verifier; see [`SqlitePool`].
#[verifier::external_body]
pub struct PostgresPool {
    pub pool: sqlx::postgres::PgPool,
}

/// The embedded engine's option parser accepts this connection URL text.
/// Lazy pool construction succeeds or fails as a function of the URL text
/// alone, so its acceptance can be named.
pub uninterp spec fn sqlite_url_accepted(url: Seq<char>) -> bool;

/// The networked engine's option parser accepts this connection URL text.
/// Environment lookups during parsing only shape option values and never
/// fail the parse, so acceptance is again a function of the text alone.
pub uninterp spec fn postgres_url_accepted(url: Seq<char>) -> bool;

/// Relies on sqlx's `PoolOptions::connect_lazy` for the embedded engine:
/// it parses the URL and builds the pool without connecting (connections
/// are established only when a statement first needs one), so it returns
/// `Ok` exactly when the engine's option parser accepts the URL, never
/// minding reachability. Background pool maintenance is switched off —
/// with no timeouts and no connection floor the pool spawns nothing at
/// construction — so the call is total in any context; pool upkeep is the
/// driver's internal affair, outside this layer's scope.
#[verifier::external_body]
fn connect_lazy_sqlite(url: &str) -> (r: Result<SqlitePool, sqlx::Error>)
    ensures
        r is Ok <==> sqlite_url_accepted(url@),
{
    let options = sqlx::pool::PoolOptions::new().max_lifetime(None).idle_timeout(None);
    Ok(SqlitePool { pool: options.connect_lazy(url)? })
}

/// Relies on sqlx's `PoolOptions::connect_lazy` for the networked engine:
/// as above, it builds the pool without connecting and spawns nothing, and
/// returns `Ok` exactly when the engine's option parser accepts the URL.
#[verifier::external_body]
fn connect_lazy_postgres(url: &str) -> (r: Result<PostgresPool, sqlx::Error>)
    ensures
        r is Ok <==> postgres_url_accepted(url@),
{
    let options = sqlx::pool::PoolOptions::new().max_lifetime(None).idle_timeout(None);
    Ok(PostgresPool { pool: options.connect_lazy(url)? })
}

/// Relies on `Arc::clone`: the clone refers to the very same shared value.
#[verifier::external_body]
fn clone_arc(arc: &std::sync::Arc<Repo>) -> (r: std::sync::Arc<Repo>)
    ensures
        r == *arc,
{
    std::sync::Arc::clone(arc)
}

/// The one engine pool a driver owns: exactly one backend kind is live per
/// repository, chosen at construction and never switched.
pub enum BackendPool {
    Sqlite(SqlitePool),
    Postgres(PostgresPool),
}

/// One backend driver: a lazily-connecting pool for the chosen engine.
///
/// The driver's verified surface prepares the two fixed statements and
/// turns fetched rows or failures into the repository's results; executing
/// a prepared statement against the pool is asynchronous engine work that
/// the surrounding application performs.
pub struct Repo {
    pub pool: BackendPool,
}

/// What `list` returns on a backend of kind `db`, once executing the list
/// statement has either fetched the table's rows or failed: all-or-nothing
/// decoding of every row, failures mapped to the error taxonomy.
pub open spec fn list_response(db: DatabaseTypes, fetched: Result<Seq<RawRow>, QueryFailure>) -> Result<
    Seq<User>,
    RepoError,
> {
    match fetched {
        Ok(rows) => if rows_complete(rows) {
            Ok(decoded_users(rows))
        } else {
            Err(RepoError::Decode)
        },
        Err(f) => Err(failure_error(f)),
    }
}

/// What `get` returns on a backend of kind `db`, once executing the get
/// statement has fetched at most one row or failed: an absent row is the
/// valid `Ok(None)` outcome, never an error.
pub open spec fn get_response(db: DatabaseTypes, fetched: Result<Option<RawRow>, QueryFailure>) -> Result<
    Option<User>,
    RepoError,
> {
    match fetched {
        Ok(found) => match found {
            Some(row) => if row_complete(row) {
                Ok(Some(decoded_user(row)))
            } else {
                Err(RepoError::Decode)
            },
            None => Ok(None),
        },
        Err(f) => Err(failure_error(f)),
    }
}

/// The view of a fetched batch as the response specification takes it.
pub open spec fn fetched_rows_view(fetched: Result<Vec<RawRow>, QueryFailure>) -> Result<
    Seq<RawRow>,
    QueryFailure,
> {
    match fetched {
        Ok(rows) => Ok(rows@),
        Err(f) => Err(f),
    }
}

/// The view of a `list` result as the response specification states it.
pub open spec fn list_result_view(r: Result<Vec<User>, RepoError>) -> Result<
    Seq<User>,
    RepoError,
> {
    match r {
        Ok(users) => Ok(users@),
        Err(e) => Err(e),
    }
}

impl Repo {
    /// The backend kind this driver was constructed for.
    pub open spec fn db_kind(self) -> DatabaseTypes {
        match self.pool {
            BackendPool::Sqlite(_) => DatabaseTypes::Sqlite,
            BackendPool::Postgres(_) => DatabaseTypes::Postgres,
        }
    }

    /// Constructs the driver for the chosen backend without connecting:
    /// the pool is built lazily, so an unreachable backend does not fail
    /// here — construction succeeds exactly when the engine's option
    /// parser accepts the URL, and a refused URL is the only failure,
    /// surfaced as `Config`.
    pub fn new(db: DatabaseTypes, url: &str) -> (r: Result<Repo, RepoError>)
        ensures
            r matches Ok(repo) ==> repo.db_kind() == db,
            r matches Err(e) ==> e == RepoError::Config,
            db == DatabaseTypes::Sqlite ==> (r is Ok <==> sqlite_url_accepted(url@)),
            db == DatabaseTypes::Postgres ==> (r is Ok <==> postgres_url_accepted(url@)),
    {
        match db {
            DatabaseTypes::Sqlite => match connect_lazy_sqlite(url) {
                Ok(pool) => Ok(Repo { pool: BackendPool::Sqlite(pool) }),
                Err(_) => Err(RepoError::Config),
            },
            DatabaseTypes::Postgres => match connect_lazy_postgres(url) {
                Ok(pool) => Ok(Repo { pool: BackendPool::Postgres(pool) }),
                Err(_) => Err(RepoError::Config),
            },
        }
    }

    /// The backend kind, as a runtime value.
    pub fn backend(&self) -> (db: DatabaseTypes)
        ensures
            db == self.db_kind(),
    {
        match &self.pool {
            BackendPool::Sqlite(_) => DatabaseTypes::Sqlite,
            BackendPool::Postgres(_) => DatabaseTypes::Postgres,
        }
    }

    /// The statement `list` executes against this driver's pool.
    pub fn list_query(&self) -> (r: &'static str)
        ensures
            r@ == list_statement_spec(),
    {
        crate::dialect::list_statement()
    }

    /// The statement and bound parameter `get` executes for `id`: the text
    /// depends on the dialect alone, the id only ever travels as the typed
    /// parameter.
    pub fn get_query(&self, id: i64) -> (q: BoundQuery)
        ensures
            q.sql@ == get_query_text(self.db_kind(), id),
            q.id == id,
    {
        crate::dialect::get_query(self.backend(), id)
    }

    /// Completes a `list` call: turns the outcome of executing the list
    /// statement — the fetched rows, or a failure — into the repository's
    /// result, exactly as `list_response` states it.
    pub fn list_from_fetch(&self, fetched: Result<Vec<RawRow>, QueryFailure>) -> (r: Result<
        Vec<User>,
        RepoError,
    >)
        ensures
            list_result_view(r) == list_response(self.db_kind(), fetched_rows_view(fetched)),
    {
        match fetched {
            Ok(rows) => decode_rows(rows),
            Err(f) => Err(f.into_error()),
        }
    }

    /// Completes a `get` call: turns the outcome of executing the get
    /// statement — at most one fetched row, or a failure — into the
    /// repository's result, exactly as `get_response` states it.
    pub fn get_from_fetch(&self, fetched: Result<Option<RawRow>, QueryFailure>) -> (r: Result<
        Option<User>,
        RepoError,
    >)
        ensures
            r == get_response(self.db_kind(), fetched),
    {
        match fetched {
            Ok(found) => match found {
                Some(row) => match decode_row(row) {
                    Ok(user) => Ok(Some(user)),
                    Err(e) => Err(e),
                },
                None => Ok(None),
            },
            Err(f) => Err(f.into_error()),
        }
    }
}

/// The shared, cloneable, backend-erased handle through which callers use
/// the repository: a reference-counted pointer to one live driver.
pub struct RepoHandle {
    pub repo: std::sync::Arc<Repo>,
}

impl RepoHandle {
    /// The backend kind behind the handle.
    pub open spec fn db_kind(self) -> DatabaseTypes {
        (*self.repo).db_kind()
    }

    /// Wraps a constructed driver for shared use: the handle holds the
    /// very driver it was given.
    pub fn new(repo: Repo) -> (h: RepoHandle)
        ensures
            h.repo == repo,
            h.db_kind() == repo.db_kind(),
    {
        RepoHandle { repo: std::sync::Arc::new(repo) }
    }

    /// The backend kind, as a runtime value.
    pub fn backend(&self) -> (db: DatabaseTypes)
        ensures
            db == self.db_kind(),
    {
        (*self.repo).backend()
    }

    /// The statement `list` executes, through the handle.
    pub fn list_query(&self) -> (r: &'static str)
        ensures
            r@ == list_statement_spec(),
    {
        (*self.repo).list_query()
    }

    /// The statement and bound parameter `get` executes for `id`, through
    /// the handle.
    pub fn get_query(&self, id: i64) -> (q: BoundQuery)
        ensures
            q.sql@ == get_query_text(self.db_kind(), id),
            q.id == id,
    {
        (*self.repo).get_query(id)
    }

    /// Completes a `list` call through the handle; see
    /// [`Repo::list_from_fetch`].
    pub fn list_from_fetch(&self, fetched: Result<Vec<RawRow>, QueryFailure>) -> (r: Result<
        Vec<User>,
        RepoError,
    >)
        ensures
            list_result_view(r) == list_response(self.db_kind(), fetched_rows_view(fetched)),
    {
        (*self.repo).list_from_fetch(fetched)
    }

    /// Completes a `get` call through the handle; see
    /// [`Repo::get_from_fetch`].
    pub fn get_from_fetch(&self, fetched: Result<Option<RawRow>, QueryFailure>) -> (r: Result<
        Option<User>,
        RepoError,
    >)
        ensures
            r == get_response(self.db_kind(), fetched),
    {
        (*self.repo).get_from_fetch(fetched)
    }
}

impl Clone for RepoHandle {
    /// Duplicating the handle shares the very same driver: every clone
    /// dispatches to the one live backend.
    fn clone(&self) -> (r: Self)
        ensures
            r == *self,
    {
        RepoHandle { repo: clone_arc(&self.repo) }
    }
}

/// Backend parity for `list`: for the same fetched rows, the embedded and
/// the networked driver return exactly the same entities, or the same
/// error — the response never depends on the backend kind.
pub proof fn lemma_backend_parity_list(fetched: Result<Seq<RawRow>, QueryFailure>)
    ensures
        list_response(DatabaseTypes::Sqlite, fetched) == list_response(
            DatabaseTypes::Postgres,
            fetched,
        ),
{
}

/// Backend parity up to order: two drivers of any kinds, each handed the
/// same logical dataset — fetched batches of complete rows equal up to
/// order — both succeed, and return the same entities up to order. Order
/// is all a backend may vary in `list`.
pub proof fn lemma_backend_parity_up_to_order(
    db1: DatabaseTypes,
    db2: DatabaseTypes,
    rows1: Seq<RawRow>,
    rows2: Seq<RawRow>,
)
    requires
        rows1.to_multiset() == rows2.to_multiset(),
        rows_complete(rows1),
    ensures
        rows_complete(rows2),
        list_response(db1, Ok(rows1)) matches Ok(users1) && (list_response(db2, Ok(rows2))
            matches Ok(users2) && users1.to_multiset() == users2.to_multiset()),
{
    broadcast use vstd::seq_lib::group_to_multiset_ensures;

    assert forall|i: int| 0 <= i < rows2.len() implies row_complete(#[trigger] rows2[i]) by {
        assert(rows2.contains(rows2[i]));
        assert(rows1.to_multiset().count(rows2[i]) > 0);
        assert(rows1.contains(rows2[i]));
        let k = choose|k: int| 0 <= k < rows1.len() && rows1[k] == rows2[i];
        assert(row_complete(rows1[k]));
    }
    crate::entity::lemma_decode_up_to_order(rows1, rows2);
}

/// Backend parity for `get`: for the same fetched row, both drivers return
/// exactly the same entity, absence, or error.
pub proof fn lemma_backend_parity_get(fetched: Result<Option<RawRow>, QueryFailure>)
    ensures
        get_response(DatabaseTypes::Sqlite, fetched) == get_response(
            DatabaseTypes::Postgres,
            fetched,
        ),
{
}

/// Absence is not failure: on every backend, a `get` whose statement
/// executed and matched no row returns the absent outcome, never an error.
pub proof fn lemma_absence_not_failure(db: DatabaseTypes)
    ensures
        get_response(db, Ok(None)) == Ok::<Option<User>, RepoError>(None),
{
}

/// Empty table: on every backend, a `list` whose statement executed and
/// fetched no rows returns the empty sequence, not an error.
pub proof fn lemma_empty_table(db: DatabaseTypes)
    ensures
        list_response(db, Ok(Seq::empty())) == Ok::<Seq<User>, RepoError>(Seq::empty()),
{
    assert(decoded_users(Seq::empty()) =~= Seq::<User>::empty());
}

} // verus!
