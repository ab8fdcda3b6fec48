use task_store::render::decimal_text;
use task_store::{Task, TaskStore};

#[test]
fn decimal_text_of_single_digits() {
    let expected = ["0", "1", "2", "3", "4", "5", "6", "7", "8", "9"];
    for n in 0..10u32 {
        assert_eq!(decimal_text(n), expected[n as usize]);
    }
}

#[test]
fn decimal_text_of_longer_numbers() {
    assert_eq!(decimal_text(10), "10");
    assert_eq!(decimal_text(42), "42");
    assert_eq!(decimal_text(100), "100");
    assert_eq!(decimal_text(1005), "1005");
    assert_eq!(decimal_text(987654321), "987654321");
    assert_eq!(decimal_text(u32::MAX), "4294967295");
}

#[test]
fn decimal_text_agrees_with_std() {
    let mut n: u32 = 1;
    for _ in 0..31 {
        assert_eq!(decimal_text(n), n.to_string());
        assert_eq!(decimal_text(n - 1), (n - 1).to_string());
        n *= 2;
    }
}

#[test]
fn line_of_a_pending_task() {
    let task = Task { id: 2, description: String::from("walk dog"), done: false };
    assert_eq!(task.line(), "2. [ ] walk dog");
}

#[test]
fn line_of_a_done_task() {
    let task = Task { id: 1, description: String::from("buy milk"), done: true };
    assert_eq!(task.line(), "1. [x] buy milk");
}

#[test]
fn line_of_an_empty_description() {
    let task = Task { id: 30, description: String::new(), done: false };
    assert_eq!(task.line(), "30. [ ] ");
}

#[test]
fn line_keeps_the_description_verbatim() {
    let task = Task { id: 7, description: String::from("  r\u{e9}sum\u{e9} [x] 1. "), done: true };
    assert_eq!(task.line(), "7. [x]   r\u{e9}sum\u{e9} [x] 1. ");
}

#[test]
fn list_gives_one_line_per_task_in_order() {
    let mut store = TaskStore::new();
    store.add(String::from("buy milk"));
    store.add(String::from("walk dog"));
    store.add(String::from("call home"));
    store.complete(2);
    assert_eq!(
        store.list(),
        vec!["1. [ ] buy milk", "2. [x] walk dog", "3. [ ] call home"]
    );
}

#[test]
fn list_of_an_empty_store_has_no_lines() {
    assert_eq!(TaskStore::new().list(), Vec::<String>::new());
}

#[test]
fn list_never_changes_the_store() {
    let mut store = TaskStore::new();
    store.add(String::from("a"));
    store.add(String::from("b"));
    store.complete(1);
    let before = store.clone();
    let first = store.list();
    for _ in 0..5 {
        assert_eq!(store.list(), first);
        assert_eq!(store, before);
    }
}
