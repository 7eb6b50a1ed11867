use user_repo::entity::{decode_row, decode_rows, RawRow, User};
use user_repo::errors::{QueryFailure, RepoError};

#[test]
fn decode_row_complete_yields_user() {
    let row = RawRow {
        id: Some(3),
        name: Some("ann".to_string()),
    };
    let user = decode_row(row).unwrap();
    assert_eq!(user.id, 3);
    assert_eq!(user.name, "ann");
}

#[test]
fn decode_row_missing_name_is_decode_error() {
    let row = RawRow {
        id: Some(3),
        name: None,
    };
    assert_eq!(decode_row(row), Err(RepoError::Decode));
}

#[test]
fn decode_row_missing_id_is_decode_error() {
    let row = RawRow {
        id: None,
        name: Some("ann".to_string()),
    };
    assert_eq!(decode_row(row), Err(RepoError::Decode));
}

#[test]
fn decode_rows_keeps_order() {
    let rows = vec![
        RawRow {
            id: Some(1),
            name: Some("ann".to_string()),
        },
        RawRow {
            id: Some(2),
            name: Some("bob".to_string()),
        },
    ];
    let users = decode_rows(rows).unwrap();
    assert_eq!(
        users,
        vec![
            User {
                id: 1,
                name: "ann".to_string()
            },
            User {
                id: 2,
                name: "bob".to_string()
            },
        ]
    );
}

#[test]
fn decode_rows_is_all_or_nothing() {
    let rows = vec![
        RawRow {
            id: Some(1),
            name: Some("ann".to_string()),
        },
        RawRow {
            id: Some(2),
            name: None,
        },
    ];
    assert_eq!(decode_rows(rows), Err(RepoError::Decode));
}

#[test]
fn decode_rows_empty_is_empty() {
    let users = decode_rows(Vec::new()).unwrap();
    assert!(users.is_empty());
}

#[test]
fn query_failures_map_to_their_errors() {
    assert_eq!(QueryFailure::Unreachable.into_error(), RepoError::Connection);
    assert_eq!(QueryFailure::Rejected.into_error(), RepoError::Query);
}

#[test]
fn error_messages_name_each_failure() {
    assert_eq!(
        RepoError::Config.message(),
        "unrecognized backend or invalid connection URL"
    );
    assert_eq!(RepoError::Connection.message(), "backend unreachable");
    assert_eq!(RepoError::Query.message(), "backend rejected the statement");
    assert_eq!(
        RepoError::Decode.message(),
        "row did not match the expected users shape"
    );
}
