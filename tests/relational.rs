use todo_api::relational::{deleted, executed, fetched, lookup_error, plan_update};
use todo_api::{DbError, RepositoryError, Todo, UpdateTodo};

fn missing() -> DbError {
    DbError { row_not_found: true, message: "no rows returned".to_string() }
}

fn broken() -> DbError {
    DbError { row_not_found: false, message: "connection refused".to_string() }
}

#[test]
fn missing_row_is_not_found() {
    assert_eq!(RepositoryError::NotFound(4), lookup_error(4, missing()));
}

#[test]
fn other_database_failure_is_unexpected() {
    assert_eq!(
        RepositoryError::Unexpected("connection refused".to_string()),
        lookup_error(4, broken())
    );
}

#[test]
fn fetched_passes_rows_and_maps_failures() {
    let row = Todo::new(3, "x".to_string());
    assert_eq!(Ok(row.clone()), fetched(3, Ok::<Todo, DbError>(row)));
    assert_eq!(Err(RepositoryError::NotFound(3)), fetched::<Todo>(3, Err(missing())));
    assert_eq!(
        Err(RepositoryError::Unexpected("connection refused".to_string())),
        fetched::<Todo>(3, Err(broken()))
    );
}

#[test]
fn executed_maps_every_failure_to_unexpected() {
    assert_eq!(Ok(vec![1, 2]), executed(Ok::<Vec<i32>, DbError>(vec![1, 2])));
    assert_eq!(
        Err(RepositoryError::Unexpected("no rows returned".to_string())),
        executed::<Todo>(Err(missing()))
    );
}

#[test]
fn plan_update_coalesces_fields() {
    let current = Todo { id: 5, text: "old".to_string(), completed: true };
    let payload = UpdateTodo { text: Some("new".to_string()), completed: None };
    assert_eq!(
        Ok(Todo { id: 5, text: "new".to_string(), completed: true }),
        plan_update(5, Ok(current.clone()), &payload)
    );
    let payload = UpdateTodo { text: None, completed: Some(false) };
    assert_eq!(
        Ok(Todo { id: 5, text: "old".to_string(), completed: false }),
        plan_update(5, Ok(current), &payload)
    );
}

#[test]
fn plan_update_of_missing_row_is_not_found() {
    let payload = UpdateTodo { text: Some("new".to_string()), completed: None };
    assert_eq!(Err(RepositoryError::NotFound(8)), plan_update(8, Err(missing()), &payload));
}

#[test]
fn delete_of_no_row_is_not_found() {
    assert_eq!(Err(RepositoryError::NotFound(2)), deleted(2, Ok(0)));
    assert_eq!(Ok(()), deleted(2, Ok(1)));
    assert_eq!(Err(RepositoryError::NotFound(2)), deleted(2, Err(missing())));
    assert_eq!(
        Err(RepositoryError::Unexpected("connection refused".to_string())),
        deleted(2, Err(broken()))
    );
}
