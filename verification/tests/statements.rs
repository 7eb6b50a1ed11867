use user_repo::dialect::{get_query, get_statement, list_statement, parse_token, DatabaseTypes};
use user_repo::errors::RepoError;

#[test]
fn list_statement_is_shared_by_both_dialects() {
    assert_eq!(list_statement(), "SELECT * FROM \"users\"");
}

#[test]
fn get_statement_differs_only_in_placeholder() {
    assert_eq!(
        get_statement(DatabaseTypes::Sqlite),
        "SELECT * FROM \"users\" WHERE id = ?"
    );
    assert_eq!(
        get_statement(DatabaseTypes::Postgres),
        "SELECT * FROM \"users\" WHERE id = $1"
    );
}

#[test]
fn get_query_carries_the_id_as_a_bound_parameter() {
    let q = get_query(DatabaseTypes::Sqlite, 42);
    assert_eq!(q.sql, "SELECT * FROM \"users\" WHERE id = ?");
    assert_eq!(q.id, 42);
}

#[test]
fn get_query_text_never_depends_on_the_id() {
    for db in [DatabaseTypes::Sqlite, DatabaseTypes::Postgres] {
        let baseline = get_query(db, 0).sql;
        for id in [1, -1, 7, i64::MIN, i64::MAX] {
            assert_eq!(get_query(db, id).sql, baseline);
        }
    }
}

#[test]
fn an_injection_shaped_id_is_rejected_at_the_typed_boundary() {
    // `get` only accepts an i64, so a value crafted to resemble SQL syntax
    // cannot even reach the statement: it fails integer parsing.
    assert!("1 OR 1=1".parse::<i64>().is_err());
    assert!("1; DROP TABLE \"users\"".parse::<i64>().is_err());
}

#[test]
fn parse_token_recognizes_both_backends() {
    assert_eq!(parse_token("sqlite"), Ok(DatabaseTypes::Sqlite));
    assert_eq!(parse_token("postgres"), Ok(DatabaseTypes::Postgres));
}

#[test]
fn parse_token_rejects_unknown_tokens() {
    assert_eq!(parse_token("mysql"), Err(RepoError::Config));
    assert_eq!(parse_token(""), Err(RepoError::Config));
    assert_eq!(parse_token("SQLITE"), Err(RepoError::Config));
}
