use todo_backend::repositories::RepositoryError;
use todo_backend::store::deleted;
use todo_backend::store::repository_error;
use todo_backend::store::row_error;
use todo_backend::store::unexpected;

#[test]
fn missing_row_becomes_not_found_with_the_id() {
    assert_eq!(row_error(7, &sqlx::Error::RowNotFound), RepositoryError::NotFound(7));
    assert_eq!(row_error(-1, &sqlx::Error::RowNotFound), RepositoryError::NotFound(-1));
}

#[test]
fn other_driver_errors_become_unexpected_with_their_text() {
    assert_eq!(
        row_error(7, &sqlx::Error::PoolClosed),
        RepositoryError::Unexpected("attempted to acquire a connection on a closed pool".to_string())
    );
    assert_eq!(
        row_error(7, &sqlx::Error::Protocol("bad frame".to_string())),
        RepositoryError::Unexpected("encountered unexpected or invalid data: bad frame".to_string())
    );
    assert_eq!(
        row_error(7, &sqlx::Error::ColumnNotFound("done".to_string())),
        RepositoryError::Unexpected("no column found for name: done".to_string())
    );
}

#[test]
fn only_the_missing_row_becomes_not_found() {
    let faults = vec![
        sqlx::Error::PoolTimedOut,
        sqlx::Error::PoolClosed,
        sqlx::Error::WorkerCrashed,
        sqlx::Error::ColumnNotFound("done".to_string()),
        sqlx::Error::ColumnIndexOutOfBounds { index: 4, len: 4 },
    ];
    for fault in faults.iter() {
        assert!(matches!(row_error(3, fault), RepositoryError::Unexpected(_)));
    }
    assert_eq!(
        row_error(3, &sqlx::Error::PoolTimedOut),
        RepositoryError::Unexpected("pool timed out while waiting for an open connection".to_string())
    );
}

#[test]
fn unexpected_keeps_the_text_it_is_given() {
    assert_eq!(
        unexpected("database is locked".to_string()),
        RepositoryError::Unexpected("database is locked".to_string())
    );
    assert_eq!(unexpected(String::new()), RepositoryError::Unexpected(String::new()));
    let text = sqlx::Error::RowNotFound.to_string();
    assert_eq!(
        unexpected(text),
        RepositoryError::Unexpected(
            "no rows returned by a query that expected to return at least one row".to_string()
        )
    );
}

#[test]
fn repository_error_chooses_by_the_missing_row() {
    assert_eq!(repository_error(3, true, "ignored".to_string()), RepositoryError::NotFound(3));
    assert_eq!(
        repository_error(3, false, "locked".to_string()),
        RepositoryError::Unexpected("locked".to_string())
    );
}

#[test]
fn deleted_reports_a_row_that_was_not_there() {
    assert_eq!(deleted(5, 1), Ok(()));
    assert_eq!(deleted(5, 2), Ok(()));
    assert_eq!(deleted(5, 0), Err(RepositoryError::NotFound(5)));
}
