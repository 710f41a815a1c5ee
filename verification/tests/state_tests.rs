use todo_core::state::AppState;
use todo_core::store::{TodoItem, Todos};

fn submit_text(s: &mut AppState, text: &str) {
    s.set_buffer(text.to_string());
    s.submit();
}

fn sorted_items(t: &Todos) -> Vec<TodoItem> {
    let mut v = t.items();
    v.sort_by_key(|item| item.id);
    v
}

#[test]
fn scenario_single_submit() {
    let mut s = AppState::new();
    submit_text(&mut s, "Buy milk");
    assert_eq!(s.len(), 1);
    assert_eq!(
        s.items(),
        vec![TodoItem { id: 0, contents: "Buy milk".to_string() }]
    );
    assert_eq!(s.buffer().as_str(), "");
}

#[test]
fn scenario_two_submits() {
    let mut s = AppState::new();
    submit_text(&mut s, "A");
    submit_text(&mut s, "B");
    assert_eq!(s.row_text(0), Some("A".to_string()));
    assert_eq!(s.row_text(1), Some("B".to_string()));
    assert_eq!(s.len(), 2);
    assert_eq!(s.next_id(), 2);
}

#[test]
fn scenario_removed_id_never_reused() {
    let mut s = AppState::new();
    submit_text(&mut s, "A");
    submit_text(&mut s, "B");
    s.remove(0);
    assert_eq!(s.len(), 1);
    assert_eq!(s.row_text(0), None);
    assert_eq!(s.row_text(1), Some("B".to_string()));
    submit_text(&mut s, "C");
    assert_eq!(s.row_text(0), None);
    assert_eq!(s.row_text(1), Some("B".to_string()));
    assert_eq!(s.row_text(2), Some("C".to_string()));
    assert_eq!(s.len(), 2);
}

#[test]
fn scenario_empty_submit_is_a_noop() {
    let mut s = AppState::new();
    s.set_buffer(String::new());
    s.submit();
    assert_eq!(s.len(), 0);
    assert_eq!(s.next_id(), 0);
}

#[test]
fn scenario_remove_on_empty_store() {
    let mut s = AppState::new();
    s.remove(99);
    assert_eq!(s.len(), 0);
    assert_eq!(s.next_id(), 0);
}

#[test]
fn identifiers_are_consecutive_despite_removals() {
    let mut s = AppState::new();
    submit_text(&mut s, "zero");
    submit_text(&mut s, "one");
    s.remove(0);
    s.remove(1);
    submit_text(&mut s, "two");
    s.remove(2);
    submit_text(&mut s, "three");
    assert_eq!(s.next_id(), 4);
    assert_eq!(s.row_text(3), Some("three".to_string()));
    let ids: Vec<u32> = s.items().iter().map(|item| item.id).collect();
    assert_eq!(ids, vec![3]);
}

#[test]
fn removing_twice_equals_removing_once() {
    let mut once = AppState::new();
    submit_text(&mut once, "A");
    submit_text(&mut once, "B");
    let mut twice = AppState::new();
    submit_text(&mut twice, "A");
    submit_text(&mut twice, "B");
    once.remove(0);
    twice.remove(0);
    twice.remove(0);
    assert_eq!(sorted_items(&once.read()), sorted_items(&twice.read()));
    assert_eq!(once.next_id(), twice.next_id());
    assert_eq!(once.buffer(), twice.buffer());
}

#[test]
fn snapshot_taken_before_mutation_keeps_its_contents() {
    let mut s = AppState::new();
    submit_text(&mut s, "A");
    let before = s.read();
    submit_text(&mut s, "B");
    s.remove(0);
    assert_eq!(before.len(), 1);
    assert_eq!(before.get(0), Some("A".to_string()));
    assert_eq!(before.get(1), None);
    assert_eq!(s.len(), 1);
}

#[test]
fn whitespace_only_text_is_accepted_untrimmed() {
    let mut s = AppState::new();
    submit_text(&mut s, "  ");
    assert_eq!(s.len(), 1);
    assert_eq!(s.next_id(), 1);
    assert_eq!(s.row_text(0), Some("  ".to_string()));
}

#[test]
fn keystroke_replaces_the_whole_buffer() {
    let mut s = AppState::new();
    s.set_buffer("partial".to_string());
    s.set_buffer("full text".to_string());
    assert_eq!(s.buffer().as_str(), "full text");
    assert_eq!(s.len(), 0);
    assert_eq!(s.next_id(), 0);
}

#[test]
fn submit_clears_only_the_buffer() {
    let mut s = AppState::new();
    s.set_buffer("note".to_string());
    submit_text(&mut s, "other");
    assert_eq!(s.buffer().as_str(), "");
    assert_eq!(s.row_text(0), Some("other".to_string()));
}
