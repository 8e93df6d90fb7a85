use todo_repository::repositories::todo::{
    CreateTodo, Todo, TodoRepository, TodoRepositoryForMemory, UpdateTodo,
};
use todo_repository::repositories::RepositoryError;

#[test]
fn repositories_todo_curd_scenario() {
    let text = "todo text".to_string();
    let id = 1;
    let expected = Todo::new(id, text.clone());

    // create
    let mut repository = TodoRepositoryForMemory::new();
    let todo = repository
        .create(CreateTodo { text: text.clone() })
        .expect("failed");
    assert_eq!(todo, expected);

    // find
    let todo = repository.find(id).unwrap();
    assert_eq!(todo, expected);

    // all
    let todos = repository.all().unwrap();
    assert_eq!(todos, vec![expected.clone()]);

    // update
    let text = "update todo".to_string();
    let todo = repository
        .update(
            id,
            UpdateTodo {
                text: Some(text.clone()),
                completed: None,
            },
        )
        .unwrap();

    let expected = Todo {
        id,
        text,
        completed: false,
    };

    assert_eq!(todo, expected);

    // delete
    repository.delete(id).unwrap();
    let todo = repository.find(id);
    assert!(!todo.is_ok());
}

#[test]
fn todo_todo_curd_scenario() {
    let text = "todo text".to_string();
    let id = 1;
    let expected = Todo::new(id, text.clone());

    // create
    let mut repository = TodoRepositoryForMemory::new();
    let todo = repository
        .create(CreateTodo { text: text.clone() })
        .expect("failed");
    assert_eq!(todo, expected);

    // find
    let todo = repository.find(id).unwrap();
    assert_eq!(todo, expected);

    // all
    let todos = repository.all().unwrap();
    assert_eq!(todos, vec![expected.clone()]);

    // update
    let text = "update todo".to_string();
    let todo = repository
        .update(
            id,
            UpdateTodo {
                text: Some(text.clone()),
                completed: None,
            },
        )
        .unwrap();

    let expected = Todo {
        id,
        text,
        completed: false,
    };

    assert_eq!(todo, expected);

    // delete
    repository.delete(id).unwrap();
    let todo = repository.find(id);
    assert!(!todo.is_ok());
}

#[test]
fn two_creates_update_and_double_delete() {
    let mut repository = TodoRepositoryForMemory::new();
    let a = repository.create(CreateTodo::new("a".to_string())).unwrap();
    assert_eq!(a, Todo { id: 1, text: "a".to_string(), completed: false });
    let b = repository.create(CreateTodo::new("b".to_string())).unwrap();
    assert_eq!(b.id, 2);
    assert_eq!(repository.all().unwrap(), vec![a.clone(), b.clone()]);
    let updated = repository
        .update(1, UpdateTodo { text: None, completed: Some(true) })
        .unwrap();
    assert_eq!(updated, Todo { id: 1, text: "a".to_string(), completed: true });
    assert_eq!(repository.delete(2), Ok(()));
    assert_eq!(repository.delete(2), Err(RepositoryError::NotFound(2)));
}

#[test]
fn create_then_find_gives_equal_record() {
    let mut repository = TodoRepositoryForMemory::new();
    repository.create(CreateTodo::new("first".to_string())).unwrap();
    let created = repository.create(CreateTodo::new("second".to_string())).unwrap();
    assert_eq!(repository.find(created.id), Ok(created.clone()));
    assert_eq!(created.text, "second");
    assert!(!created.completed);
}

#[test]
fn absent_id_reports_not_found() {
    let mut repository = TodoRepositoryForMemory::new();
    repository.create(CreateTodo::new("kept".to_string())).unwrap();
    assert_eq!(repository.find(7), Err(RepositoryError::NotFound(7)));
    assert_eq!(
        repository.update(7, UpdateTodo { text: Some("x".to_string()), completed: Some(true) }),
        Err(RepositoryError::NotFound(7))
    );
    assert_eq!(repository.delete(7), Err(RepositoryError::NotFound(7)));
    assert_eq!(repository.all().unwrap().len(), 1);
}

#[test]
fn find_on_empty_store_reports_not_found() {
    let repository = TodoRepositoryForMemory::new();
    assert_eq!(repository.find(1), Err(RepositoryError::NotFound(1)));
    assert_eq!(repository.all().unwrap(), Vec::<Todo>::new());
}

#[test]
fn all_after_creates_lists_each_once() {
    let mut repository = TodoRepositoryForMemory::new();
    for i in 0..5 {
        repository.create(CreateTodo::new(format!("todo {}", i))).unwrap();
    }
    let all = repository.all().unwrap();
    assert_eq!(all.len(), 5);
    let ids: Vec<i32> = all.iter().map(|t| t.id).collect();
    assert_eq!(ids, vec![1, 2, 3, 4, 5]);
    assert_eq!(all[3].text, "todo 3");
}

#[test]
fn partial_update_keeps_other_field() {
    let mut repository = TodoRepositoryForMemory::new();
    repository.create(CreateTodo::new("first text".to_string())).unwrap();
    repository
        .update(1, UpdateTodo { text: None, completed: Some(true) })
        .unwrap();
    let renamed = repository
        .update(1, UpdateTodo { text: Some("renamed".to_string()), completed: None })
        .unwrap();
    assert_eq!(renamed, Todo { id: 1, text: "renamed".to_string(), completed: true });
    let reopened = repository
        .update(1, UpdateTodo { text: None, completed: Some(false) })
        .unwrap();
    assert_eq!(reopened, Todo { id: 1, text: "renamed".to_string(), completed: false });
    assert_eq!(repository.find(1), Ok(reopened));
}

#[test]
fn find_after_delete_is_not_found() {
    let mut repository = TodoRepositoryForMemory::new();
    repository.create(CreateTodo::new("gone".to_string())).unwrap();
    repository.create(CreateTodo::new("stays".to_string())).unwrap();
    assert_eq!(repository.delete(1), Ok(()));
    assert_eq!(repository.find(1), Err(RepositoryError::NotFound(1)));
    let all = repository.all().unwrap();
    assert_eq!(all, vec![Todo { id: 2, text: "stays".to_string(), completed: false }]);
}

#[test]
fn ids_are_not_reused_after_delete() {
    // Ids come from a counter, not from the number of records held: after a
    // deletion the next record gets a fresh id instead of clashing with one.
    let mut repository = TodoRepositoryForMemory::new();
    repository.create(CreateTodo::new("one".to_string())).unwrap();
    repository.create(CreateTodo::new("two".to_string())).unwrap();
    repository.delete(1).unwrap();
    let three = repository.create(CreateTodo::new("three".to_string())).unwrap();
    assert_eq!(three.id, 3);
    let ids: Vec<i32> = repository.all().unwrap().iter().map(|t| t.id).collect();
    assert_eq!(ids, vec![2, 3]);
    assert_eq!(repository.find(2).unwrap().text, "two");
}
