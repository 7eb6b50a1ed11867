use user_repo::dialect::DatabaseTypes;
use user_repo::errors::RepoError;
use user_repo::repo::Repo;
use user_repo::select::select_backend;

// No test here enters an async runtime on purpose: driver construction is
// synchronous and total, spawning nothing and connecting to nothing.

#[test]
fn unknown_token_yields_config_error_and_no_driver() {
    let r = select_backend("mysql", "sqlite::memory:");
    assert_eq!(r.err(), Some(RepoError::Config));
}

#[test]
fn sqlite_token_selects_the_embedded_backend() {
    let handle = select_backend("sqlite", "sqlite::memory:").unwrap();
    assert_eq!(handle.backend(), DatabaseTypes::Sqlite);
}

#[test]
fn postgres_token_selects_the_networked_backend() {
    // Lazy construction: no server is listening on this URL, yet selection
    // succeeds because the pool never connects here.
    let handle = select_backend("postgres", "postgres://nobody@127.0.0.1:9/none").unwrap();
    assert_eq!(handle.backend(), DatabaseTypes::Postgres);
}

#[test]
fn unparsable_url_yields_config_error() {
    // The embedded engine's option parser refuses unknown parameters.
    let r = select_backend("sqlite", "sqlite:/tmp/user_repo.db?bogus=1");
    assert_eq!(r.err(), Some(RepoError::Config));
}

#[test]
fn construction_is_lazy_for_an_unreachable_target() {
    // The directory does not exist, so the first real query would fail;
    // construction itself must still succeed immediately.
    let repo = Repo::new(
        DatabaseTypes::Sqlite,
        "sqlite:/tmp/user_repo_no_such_dir/absent.db",
    );
    assert!(repo.is_ok());

    let repo = Repo::new(DatabaseTypes::Postgres, "postgres://nobody@127.0.0.1:9/none");
    assert!(repo.is_ok());
}

#[test]
fn cloned_handles_share_one_backend() {
    let handle = select_backend("sqlite", "sqlite::memory:").unwrap();
    let copy = handle.clone();
    assert_eq!(handle.backend(), copy.backend());
}
