use task_store::{Task, TaskStore};

fn task(id: u32, description: &str, done: bool) -> Task {
    Task { id, description: String::from(description), done }
}

fn ids(store: &TaskStore) -> Vec<u32> {
    store.tasks().iter().map(|t| t.id).collect()
}

#[test]
fn new_store_is_empty() {
    let store = TaskStore::new();
    assert!(store.is_empty());
    assert_eq!(store.len(), 0);
    assert_eq!(store.max_id(), 0);
    assert_eq!(store.tasks(), &Vec::<Task>::new());
    assert_eq!(TaskStore::default(), store);
}

#[test]
fn add_on_empty_store_yields_id_one() {
    let mut store = TaskStore::new();
    let added = store.add(String::from("buy milk"));
    assert_eq!(added, task(1, "buy milk", false));
    assert_eq!(store.tasks(), &vec![task(1, "buy milk", false)]);
}

#[test]
fn add_yields_one_more_than_greatest_id() {
    let mut store = TaskStore::from_tasks(vec![task(3, "a", false), task(7, "b", true)]);
    let added = store.add(String::from("c"));
    assert_eq!(added.id, 8);
    assert_eq!(ids(&store), vec![3, 7, 8]);
}

#[test]
fn add_looks_at_the_greatest_id_not_the_last() {
    let mut store = TaskStore::from_tasks(vec![task(9, "a", false), task(2, "b", false)]);
    assert_eq!(store.max_id(), 9);
    let added = store.add(String::from("c"));
    assert_eq!(added.id, 10);
    assert_eq!(ids(&store), vec![9, 2, 10]);
}

#[test]
fn add_accepts_empty_description() {
    let mut store = TaskStore::new();
    let added = store.add(String::new());
    assert_eq!(added, task(1, "", false));
    assert_eq!(store.len(), 1);
}

#[test]
fn add_keeps_description_verbatim() {
    let mut store = TaskStore::new();
    let text = "  caf\u{e9} \"quoted\"\n\ttab \\ ";
    let added = store.add(String::from(text));
    assert_eq!(added.description, text);
    assert_eq!(store.tasks()[0].description, text);
    assert!(!store.tasks()[0].done);
}

#[test]
fn add_reaches_the_last_identifier() {
    let mut store = TaskStore::from_tasks(vec![task(u32::MAX - 1, "a", false)]);
    let added = store.add(String::from("b"));
    assert_eq!(added.id, u32::MAX);
    assert_eq!(store.max_id(), u32::MAX);
}

#[test]
fn add_reuses_id_of_removed_greatest() {
    let mut store = TaskStore::new();
    store.add(String::from("a"));
    store.add(String::from("b"));
    assert_eq!(store.remove(2), Some(task(2, "b", false)));
    let again = store.add(String::from("c"));
    assert_eq!(again.id, 2);
    assert_eq!(store.tasks(), &vec![task(1, "a", false), task(2, "c", false)]);
}

#[test]
fn ids_stay_distinct_under_adds_and_removes() {
    let mut store = TaskStore::new();
    for round in 0..6u32 {
        store.add(format!("task {}", round));
        store.add(format!("other {}", round));
        store.remove(round);
        store.complete(round + 1);
        let seen = ids(&store);
        for i in 0..seen.len() {
            for j in (i + 1)..seen.len() {
                assert_ne!(seen[i], seen[j]);
            }
        }
    }
    assert_eq!(ids(&store), vec![6, 7, 8, 9, 10, 11, 12]);
}

#[test]
fn remove_keeps_order_of_survivors() {
    let mut store = TaskStore::new();
    store.add(String::from("a"));
    store.add(String::from("b"));
    store.add(String::from("c"));
    store.complete(3);
    assert_eq!(store.remove(2), Some(task(2, "b", false)));
    assert_eq!(store.tasks(), &vec![task(1, "a", false), task(3, "c", true)]);
}

#[test]
fn remove_takes_only_the_first_match() {
    let mut store = TaskStore::from_tasks(vec![
        task(1, "first", false),
        task(4, "second", false),
        task(1, "third", true),
    ]);
    assert_eq!(store.remove(1), Some(task(1, "first", false)));
    assert_eq!(store.tasks(), &vec![task(4, "second", false), task(1, "third", true)]);
    assert_eq!(store.remove(1), Some(task(1, "third", true)));
    assert_eq!(store.tasks(), &vec![task(4, "second", false)]);
}

#[test]
fn remove_of_absent_id_changes_nothing() {
    let mut store = TaskStore::from_tasks(vec![task(1, "a", false), task(2, "b", true)]);
    let before = store.clone();
    assert_eq!(store.remove(3), None);
    assert_eq!(store.remove(0), None);
    assert_eq!(store, before);
    let mut empty = TaskStore::new();
    assert_eq!(empty.remove(1), None);
    assert!(empty.is_empty());
}

#[test]
fn complete_marks_the_task_done() {
    let mut store = TaskStore::new();
    store.add(String::from("a"));
    store.add(String::from("b"));
    assert!(store.complete(1));
    assert_eq!(store.tasks(), &vec![task(1, "a", true), task(2, "b", false)]);
}

#[test]
fn complete_marks_only_the_first_match() {
    let mut store = TaskStore::from_tasks(vec![
        task(5, "x", true),
        task(2, "first", false),
        task(2, "second", false),
    ]);
    assert!(store.complete(2));
    assert_eq!(
        store.tasks(),
        &vec![task(5, "x", true), task(2, "first", true), task(2, "second", false)]
    );
}

#[test]
fn complete_of_absent_id_changes_nothing() {
    let mut store = TaskStore::from_tasks(vec![task(1, "a", false)]);
    let before = store.clone();
    assert!(!store.complete(2));
    assert_eq!(store, before);
    let mut empty = TaskStore::new();
    assert!(!empty.complete(1));
    assert!(empty.is_empty());
}

#[test]
fn complete_twice_leaves_the_task_done() {
    let mut store = TaskStore::from_tasks(vec![task(1, "a", false)]);
    assert!(store.complete(1));
    let once = store.clone();
    assert!(store.complete(1));
    assert_eq!(store, once);
    assert!(store.tasks()[0].done);
}

#[test]
fn done_task_stays_done_without_removal() {
    let mut store = TaskStore::from_tasks(vec![task(1, "a", true), task(2, "b", false)]);
    store.add(String::from("c"));
    store.list();
    store.complete(2);
    store.complete(1);
    store.complete(9);
    store.add(String::from("d"));
    assert_eq!(store.tasks()[0], task(1, "a", true));
    assert_eq!(store.tasks()[1], task(2, "b", true));
}

#[test]
fn position_finds_the_first_match() {
    let store = TaskStore::from_tasks(vec![
        task(4, "a", false),
        task(7, "b", false),
        task(4, "c", false),
    ]);
    assert_eq!(store.position(4), Some(0));
    assert_eq!(store.position(7), Some(1));
    assert_eq!(store.position(1), None);
    assert_eq!(TaskStore::new().position(4), None);
}

#[test]
fn max_id_is_the_greatest_in_use() {
    assert_eq!(TaskStore::new().max_id(), 0);
    let store = TaskStore::from_tasks(vec![task(2, "a", false), task(11, "b", false), task(5, "c", false)]);
    assert_eq!(store.max_id(), 11);
    let zero = TaskStore::from_tasks(vec![task(0, "a", false)]);
    assert_eq!(zero.max_id(), 0);
}

#[test]
fn from_tasks_and_into_tasks_keep_order_and_fields() {
    let given = vec![task(3, "c", true), task(1, "a", false), task(3, "again", false)];
    let store = TaskStore::from_tasks(given.clone());
    assert_eq!(store.len(), 3);
    assert!(!store.is_empty());
    assert_eq!(store.tasks(), &given);
    assert_eq!(store.into_tasks(), given);
}

#[test]
fn task_new_is_pending() {
    let made = Task::new(12, String::from("write"));
    assert_eq!(made, task(12, "write", false));
    assert_eq!(made.clone(), made);
}
