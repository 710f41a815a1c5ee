use todo_core::store::{TodoItem, Todos};

fn sorted_items(t: &Todos) -> Vec<TodoItem> {
    let mut v = t.items();
    v.sort_by_key(|item| item.id);
    v
}

#[test]
fn empty_snapshot_has_no_records() {
    let t = Todos::new();
    assert_eq!(t.len(), 0);
    assert!(t.items().is_empty());
    assert_eq!(t.get(0), None);
}

#[test]
fn insert_stores_the_record() {
    let t = Todos::new().insert(0, "Buy milk".to_string());
    assert_eq!(t.len(), 1);
    assert_eq!(t.get(0), Some("Buy milk".to_string()));
    assert_eq!(
        t.items(),
        vec![TodoItem { id: 0, contents: "Buy milk".to_string() }]
    );
}

#[test]
fn insert_overwrites_an_existing_key() {
    let t = Todos::new().insert(3, "old".to_string()).insert(3, "new".to_string());
    assert_eq!(t.len(), 1);
    assert_eq!(t.get(3), Some("new".to_string()));
}

#[test]
fn remove_drops_only_the_given_key() {
    let t = Todos::new().insert(0, "A".to_string()).insert(1, "B".to_string());
    let after = t.remove(0);
    assert_eq!(after.len(), 1);
    assert_eq!(after.get(0), None);
    assert_eq!(after.get(1), Some("B".to_string()));
}

#[test]
fn remove_absent_key_is_a_noop() {
    let t = Todos::new();
    let after = t.remove(99);
    assert_eq!(after.len(), 0);
    assert_eq!(after.get(99), None);
}

#[test]
fn mutation_leaves_the_old_snapshot_untouched() {
    let before = Todos::new().insert(0, "keep".to_string());
    let grown = before.insert(1, "more".to_string());
    let shrunk = before.remove(0);
    assert_eq!(before.len(), 1);
    assert_eq!(before.get(0), Some("keep".to_string()));
    assert_eq!(before.get(1), None);
    assert_eq!(grown.len(), 2);
    assert_eq!(shrunk.len(), 0);
}

#[test]
fn snapshot_copy_has_equal_contents() {
    let t = Todos::new().insert(0, "A".to_string()).insert(1, "B".to_string());
    let copy = t.snapshot();
    assert_eq!(sorted_items(&t), sorted_items(&copy));
}

#[test]
fn items_lists_every_record_once() {
    let t = Todos::new()
        .insert(2, "C".to_string())
        .insert(0, "A".to_string())
        .insert(1, "B".to_string());
    let items = sorted_items(&t);
    assert_eq!(
        items,
        vec![
            TodoItem { id: 0, contents: "A".to_string() },
            TodoItem { id: 1, contents: "B".to_string() },
            TodoItem { id: 2, contents: "C".to_string() },
        ]
    );
}
