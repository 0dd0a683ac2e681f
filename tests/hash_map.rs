use todo_api::{CreateTodo, RepositoryError, Todo, TodoStore, UpdateTodo};

#[test]
fn hash_map_todo_create() {
    let text = "todo text".to_string();
    let id = 1;
    let expected = Todo::new(id, text.clone());

    let mut repository = TodoStore::new();
    let todo = repository.create(CreateTodo { text }).unwrap();
    assert_eq!(expected, todo);
}

#[test]
fn hash_map_todo_find() {
    let text = "todo text".to_string();
    let id = 1;
    let expected = Todo::new(id, text.clone());

    let mut repository = TodoStore::new();
    repository
        .create(CreateTodo { text })
        .expect("failed to create todo");
    let todo = repository.find(id).unwrap();
    assert_eq!(expected, todo);
}

#[test]
fn hash_map_todo_all() {
    let text = "todo text".to_string();
    let id = 1;
    let expected = Todo::new(id, text.clone());
    let mut repository = TodoStore::new();
    let _ = repository
        .create(CreateTodo { text })
        .expect("failed to create todo");
    let todo = repository.all();
    assert_eq!(vec![expected], todo);
}

#[test]
fn hash_map_todo_update() {
    let text = "todo text".to_string();
    let id = 1;
    let mut repository = TodoStore::new();
    let _ = repository
        .create(CreateTodo { text: text.clone() })
        .expect("failed to create todo");

    let update_text = "update todo text".to_string();
    let todo = repository
        .update(
            id,
            UpdateTodo {
                text: Some(update_text.clone()),
                completed: Some(true),
            },
        )
        .expect("failed update todo.");
    assert_eq!(
        Todo {
            id,
            text: update_text,
            completed: true,
        },
        todo
    );
}

#[test]
fn hash_map_todo_delete() {
    let text = "todo text".to_string();
    let id = 1;
    let mut repository = TodoStore::new();
    let _ = repository
        .create(CreateTodo { text: text.clone() })
        .expect("failed to create todo");

    let res = repository.delete(id);
    assert!(res.is_ok());
    assert_eq!(repository.len(), 0);
}

#[test]
fn create_fills_completed_false_and_fresh_ids() {
    let mut repository = TodoStore::new();
    let a = repository.create(CreateTodo::new("first".to_string())).unwrap();
    let b = repository.create(CreateTodo::new("second".to_string())).unwrap();
    assert_eq!(Todo { id: 1, text: "first".to_string(), completed: false }, a);
    assert_eq!(Todo { id: 2, text: "second".to_string(), completed: false }, b);
    assert_eq!(repository.len(), 2);
}

#[test]
fn find_never_created_is_not_found() {
    let mut repository = TodoStore::new();
    repository.create(CreateTodo::new("only".to_string())).unwrap();
    assert_eq!(Err(RepositoryError::NotFound(5)), repository.find(5));
    assert_eq!(Err(RepositoryError::NotFound(0)), repository.find(0));
    assert_eq!(Err(RepositoryError::NotFound(-1)), repository.find(-1));
}

#[test]
fn update_text_only_keeps_completed() {
    let mut repository = TodoStore::new();
    repository.create(CreateTodo::new("a".to_string())).unwrap();
    repository.update(1, UpdateTodo { text: None, completed: Some(true) }).unwrap();
    let todo = repository
        .update(1, UpdateTodo { text: Some("b".to_string()), completed: None })
        .unwrap();
    assert_eq!(Todo { id: 1, text: "b".to_string(), completed: true }, todo);
    assert_eq!(Ok(todo), repository.find(1));
}

#[test]
fn update_completed_only_keeps_text() {
    let mut repository = TodoStore::new();
    repository.create(CreateTodo::new("a".to_string())).unwrap();
    let todo = repository
        .update(1, UpdateTodo { text: None, completed: Some(true) })
        .unwrap();
    assert_eq!(Todo { id: 1, text: "a".to_string(), completed: true }, todo);
}

#[test]
fn update_absent_is_not_found_and_changes_nothing() {
    let mut repository = TodoStore::new();
    repository.create(CreateTodo::new("a".to_string())).unwrap();
    let res = repository.update(2, UpdateTodo { text: Some("b".to_string()), completed: None });
    assert_eq!(Err(RepositoryError::NotFound(2)), res);
    assert_eq!(vec![Todo::new(1, "a".to_string())], repository.all());
}

#[test]
fn delete_then_find_is_not_found() {
    let mut repository = TodoStore::new();
    repository.create(CreateTodo::new("a".to_string())).unwrap();
    repository.create(CreateTodo::new("b".to_string())).unwrap();
    assert_eq!(Ok(()), repository.delete(1));
    assert_eq!(Err(RepositoryError::NotFound(1)), repository.find(1));
    assert_eq!(Ok(Todo::new(2, "b".to_string())), repository.find(2));
}

#[test]
fn delete_absent_is_not_found_and_keeps_size() {
    let mut repository = TodoStore::new();
    repository.create(CreateTodo::new("a".to_string())).unwrap();
    assert_eq!(Err(RepositoryError::NotFound(2)), repository.delete(2));
    assert_eq!(repository.len(), 1);
    assert_eq!(Err(RepositoryError::NotFound(1)), {
        repository.delete(1).unwrap();
        repository.delete(1)
    });
    assert_eq!(repository.len(), 0);
}

#[test]
fn list_after_two_creates_holds_both() {
    let mut repository = TodoStore::new();
    let a = repository.create(CreateTodo::new("a".to_string())).unwrap();
    let b = repository.create(CreateTodo::new("b".to_string())).unwrap();
    assert_eq!((a.id, b.id), (1, 2));
    let mut all = repository.all();
    all.sort_by_key(|t| t.id);
    assert_eq!(vec![a, b], all);
}

#[test]
fn list_of_empty_store_is_empty() {
    let repository = TodoStore::new();
    assert!(repository.all().is_empty());
}

#[test]
fn create_after_delete_reuses_size_plus_one() {
    // The id is the record count plus one, so after deleting id 1 of {1, 2}
    // the next create takes id 2 again and replaces that record.
    let mut repository = TodoStore::new();
    repository.create(CreateTodo::new("a".to_string())).unwrap();
    repository.create(CreateTodo::new("b".to_string())).unwrap();
    repository.delete(1).unwrap();
    let c = repository.create(CreateTodo::new("c".to_string())).unwrap();
    assert_eq!(Todo::new(2, "c".to_string()), c);
    assert_eq!(repository.len(), 1);
    assert_eq!(vec![c], repository.all());
}

#[test]
fn duplicate_copies_every_field() {
    let t = Todo { id: 9, text: "x".to_string(), completed: true };
    assert_eq!(t, t.duplicate());
}

#[test]
fn apply_to_merges_present_fields() {
    let old = Todo { id: 3, text: "old".to_string(), completed: false };
    let none = UpdateTodo { text: None, completed: None };
    assert_eq!(old, none.apply_to(&old));
    let both = UpdateTodo { text: Some("new".to_string()), completed: Some(true) };
    assert_eq!(Todo { id: 3, text: "new".to_string(), completed: true }, both.apply_to(&old));
}
