use todo_api::id::TodoId;
use todo_api::in_memory::InMemoryTodoRepository;
use todo_api::models::TodoInput;
use todo_api::repository::TodoRepository;

fn input(title: &str) -> TodoInput {
    TodoInput { title: title.to_string() }
}

#[test]
fn test_repository_crud_operations() {
    let mut repo = InMemoryTodoRepository::new();

    let created_todo = repo.create(input("Task 1"));
    assert_eq!(created_todo.title, "Task 1");

    let todos = repo.list();
    assert_eq!(todos.len(), 1);

    let updated_option = repo.update(created_todo.id, input("Updated Task"));
    assert!(updated_option.is_some());
    let updated_todo = updated_option.unwrap();
    assert_eq!(updated_todo.title, "Updated Task");

    let deleted_option = repo.delete(created_todo.id);
    assert!(deleted_option.is_some());
    let deleted_todo = deleted_option.unwrap();
    assert_eq!(deleted_todo.title, "Updated Task");

    let todos_after_deletion = repo.list();
    assert_eq!(todos_after_deletion.len(), 0);
}

#[test]
fn empty_repository_lists_nothing() {
    let repo = InMemoryTodoRepository::new();
    assert!(repo.list().is_empty());
}

#[test]
fn list_after_creates_holds_each_created_record() {
    let mut repo = InMemoryTodoRepository::new();
    let titles = ["a", "b", "c", "a"];
    let mut made = Vec::new();
    for t in titles.iter() {
        made.push(repo.create(input(t)));
    }
    let listed = repo.list();
    assert_eq!(listed.len(), titles.len());
    for (m, t) in made.iter().zip(titles.iter()) {
        assert_eq!(m.title, *t);
        assert!(!m.completed);
        let found: Vec<_> = listed.iter().filter(|x| x.id == m.id).collect();
        assert_eq!(found.len(), 1);
        assert_eq!(found[0].title, m.title);
        assert!(!found[0].completed);
    }
}

#[test]
fn creates_give_distinct_ids() {
    let mut repo = InMemoryTodoRepository::new();
    let mut ids = Vec::new();
    for _ in 0..50 {
        ids.push(repo.create(input("x")).id);
    }
    for i in 0..ids.len() {
        for j in (i + 1)..ids.len() {
            assert_ne!(ids[i], ids[j]);
        }
    }
    assert_eq!(repo.list().len(), 50);
}

#[test]
fn update_unknown_id_changes_nothing() {
    let mut repo = InMemoryTodoRepository::new();
    let kept = repo.create(input("keep"));
    let r = repo.update(TodoId(7), input("x"));
    assert!(r.is_none());
    let listed = repo.list();
    assert_eq!(listed.len(), 1);
    assert_eq!(listed[0].id, kept.id);
    assert_eq!(listed[0].title, "keep");
}

#[test]
fn update_known_id_changes_title_only() {
    let mut repo = InMemoryTodoRepository::new();
    let a = repo.create(input("first"));
    let b = repo.create(input("second"));
    let r = repo.update(a.id, input("renamed")).unwrap();
    assert_eq!(r.id, a.id);
    assert!(!r.completed);
    assert_eq!(r.title, "renamed");
    let stored = repo.get(a.id).unwrap();
    assert_eq!(stored.id, r.id);
    assert_eq!(stored.title, r.title);
    assert_eq!(stored.completed, r.completed);
    assert_eq!(repo.get(b.id).unwrap().title, "second");
    assert_eq!(repo.list().len(), 2);
}

#[test]
fn returned_copy_is_independent_of_store() {
    let mut repo = InMemoryTodoRepository::new();
    let a = repo.create(input("one"));
    let mut copy = repo.get(a.id).unwrap();
    copy.title.push_str(" changed");
    assert_eq!(repo.get(a.id).unwrap().title, "one");
    repo.update(a.id, input("two"));
    assert_eq!(copy.title, "one changed");
    assert_eq!(a.title, "one");
}

#[test]
fn delete_known_id_removes_it() {
    let mut repo = InMemoryTodoRepository::new();
    let a = repo.create(input("a"));
    let b = repo.create(input("b"));
    let removed = repo.delete(a.id).unwrap();
    assert_eq!(removed.id, a.id);
    assert_eq!(removed.title, "a");
    let listed = repo.list();
    assert_eq!(listed.len(), 1);
    assert!(listed.iter().all(|t| t.id != a.id));
    assert_eq!(listed[0].id, b.id);
    assert!(repo.get(a.id).is_none());
}

#[test]
fn delete_unknown_id_changes_nothing() {
    let mut repo = InMemoryTodoRepository::new();
    let a = repo.create(input("a"));
    assert!(repo.delete(TodoId(a.id.0.wrapping_add(1))).is_none());
    let listed = repo.list();
    assert_eq!(listed.len(), 1);
    assert_eq!(listed[0].title, "a");
}

#[test]
fn delete_twice_second_finds_nothing() {
    let mut repo = InMemoryTodoRepository::new();
    let a = repo.create(input("a"));
    assert!(repo.delete(a.id).is_some());
    assert!(repo.delete(a.id).is_none());
    assert!(repo.list().is_empty());
}

#[test]
fn default_repository_is_empty() {
    let repo = InMemoryTodoRepository::default();
    assert!(repo.list().is_empty());
}
