use fust_orm::error::{connection_error, query_error};
use fust_orm::DatabaseError;
use sqlx::sqlite::SqlitePool;

#[test]
fn a_connection_error_is_rendered_with_its_label() {
    let e = DatabaseError::ConnectionError("unable to open database file".to_string());
    assert_eq!(e.to_string(), "Connection error: unable to open database file");
}

#[test]
fn a_query_error_is_rendered_with_its_label() {
    let e = DatabaseError::QueryError("no such table: users".to_string());
    assert_eq!(e.to_string(), "Query error: no such table: users");
}

#[test]
fn a_pool_error_is_rendered_with_its_label() {
    let e = DatabaseError::PoolError("pool timed out".to_string());
    assert_eq!(e.to_string(), "Pool error: pool timed out");
}

#[test]
fn an_empty_detail_leaves_the_label() {
    assert_eq!(DatabaseError::QueryError(String::new()).to_string(), "Query error: ");
}

#[test]
fn the_three_kinds_are_distinct() {
    let text = "x".to_string();
    assert_ne!(DatabaseError::ConnectionError(text.clone()), DatabaseError::QueryError(text.clone()));
    assert_ne!(DatabaseError::QueryError(text.clone()), DatabaseError::PoolError(text.clone()));
    assert_ne!(DatabaseError::PoolError(text.clone()), DatabaseError::ConnectionError(text));
}

#[test]
fn a_driver_error_becomes_a_query_error_with_its_message() {
    let e = sqlx::Error::RowNotFound;
    assert_eq!(query_error(&e), DatabaseError::QueryError(e.to_string()));
    assert_eq!(
        query_error(&e),
        DatabaseError::QueryError(
            "no rows returned by a query that expected to return at least one row".to_string()
        )
    );
}

#[test]
fn a_driver_error_becomes_a_connection_error_with_its_message() {
    let e = sqlx::Error::PoolClosed;
    assert_eq!(connection_error(&e), DatabaseError::ConnectionError(e.to_string()));
    assert_eq!(
        connection_error(&e).to_string(),
        "Connection error: attempted to acquire a connection on a closed pool"
    );
}

#[test]
fn connecting_to_an_unreachable_location_gives_a_connection_error() {
    let rt = tokio::runtime::Builder::new_current_thread().enable_all().build().unwrap();
    let outcome = rt.block_on(SqlitePool::connect("/no/such/directory/anywhere/data.db"));
    let failure = match outcome {
        Ok(_) => panic!("a handle was returned"),
        Err(e) => e,
    };
    let error = connection_error(&failure);
    assert!(matches!(error, DatabaseError::ConnectionError(_)));
    assert_eq!(error, DatabaseError::ConnectionError(failure.to_string()));
}
