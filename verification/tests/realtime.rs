use pocketbase_sdk::realtime::{Action, Change, Record, RecordBase, Store};

type Post = RecordBase;

/// A record of the collection `posts`; `updated` stands for its contents.
fn post(id: &str, updated: &str) -> Post {
    RecordBase {
        collection_id: "pbc_1".to_string(),
        collection_name: "posts".to_string(),
        created: "2024-01-01".to_string(),
        id: id.to_string(),
        updated: updated.to_string(),
    }
}

fn ids(items: &[Post]) -> Vec<(String, String)> {
    items.iter().map(|p| (p.id.clone(), p.updated.clone())).collect()
}

#[test]
fn record_base_key_is_id() {
    assert_eq!(post("abc", "1").key(), "abc");
}

fn change(action: Action) -> Change {
    Change { record: String::from("{}"), action }
}

#[test]
fn create_appends() {
    let mut items = vec![post("a", "1")];
    change(Action::Create).apply(&mut items, post("a", "2"));
    assert_eq!(ids(&items), ids(&vec![post("a", "1"), post("a", "2")]));
}

#[test]
fn update_replaces_first_match() {
    let mut items = vec![post("a", "1"), post("b", "1"), post("b", "2")];
    change(Action::Update).apply(&mut items, post("b", "new"));
    assert_eq!(ids(&items), ids(&vec![post("a", "1"), post("b", "new"), post("b", "2")]));
}

#[test]
fn update_appends_when_missing() {
    let mut items = vec![post("a", "1")];
    change(Action::Update).apply(&mut items, post("c", "x"));
    assert_eq!(ids(&items), ids(&vec![post("a", "1"), post("c", "x")]));
    let mut empty: Vec<Post> = Vec::new();
    change(Action::Update).apply(&mut empty, post("c", "x"));
    assert_eq!(ids(&empty), ids(&vec![post("c", "x")]));
}

#[test]
fn delete_removes_every_match() {
    let mut items = vec![post("b", "0"), post("a", "1"), post("b", "1"), post("c", "1"), post("b", "2")];
    change(Action::Delete).apply(&mut items, post("b", "whatever"));
    assert_eq!(ids(&items), ids(&vec![post("a", "1"), post("c", "1")]));
}

#[test]
fn delete_twice_is_delete_once() {
    let mut once = vec![post("a", "1"), post("b", "1")];
    change(Action::Delete).apply(&mut once, post("a", ""));
    let mut twice = once.clone();
    change(Action::Delete).apply(&mut twice, post("a", ""));
    assert_eq!(ids(&once), ids(&twice));
}

#[test]
fn delete_undoes_update_and_create() {
    let start = vec![post("a", "1"), post("b", "1")];
    let mut deleted = start.clone();
    change(Action::Delete).apply(&mut deleted, post("a", ""));
    for action in [Action::Update, Action::Create] {
        let mut items = start.clone();
        change(action).apply(&mut items, post("a", "2"));
        change(Action::Delete).apply(&mut items, post("a", ""));
        assert_eq!(ids(&items), ids(&deleted));
    }
}

#[test]
fn store_follows_its_topic() {
    let mut store: Store<Post> = Store::new("posts".to_string());
    assert!(store.read().is_empty());
    store.notify("posts", &change(Action::Create), post("a", "1"));
    store.notify("users", &change(Action::Create), post("u", "1"));
    assert_eq!(ids(store.read()), ids(&[post("a", "1")]));
    store.notify("posts", &change(Action::Update), post("a", "2"));
    assert_eq!(ids(store.read()), ids(&[post("a", "2")]));
    store.notify("posts", &change(Action::Delete), post("a", ""));
    assert!(store.read().is_empty());
}

#[test]
fn store_update_runs_callback() {
    let mut store: Store<Post> = Store::new("posts".to_string());
    let count = store.update(|items| {
        items.push(post("x", "1"));
        items.len()
    });
    assert_eq!(count, 1);
    assert_eq!(ids(store.read()), ids(&[post("x", "1")]));
}

#[test]
fn update_twice_is_update_once() {
    for start in [vec![post("a", "1"), post("b", "1")], vec![post("b", "1")]] {
        let mut once = start.clone();
        change(Action::Update).apply(&mut once, post("a", "2"));
        let mut twice = once.clone();
        change(Action::Update).apply(&mut twice, post("a", "2"));
        assert_eq!(ids(&once), ids(&twice));
    }
}

#[test]
fn update_keeps_keys_unique() {
    let mut items = vec![post("a", "1"), post("b", "1"), post("c", "1")];
    change(Action::Update).apply(&mut items, post("b", "2"));
    change(Action::Update).apply(&mut items, post("d", "1"));
    change(Action::Delete).apply(&mut items, post("a", ""));
    let mut keys: Vec<&str> = items.iter().map(|p| p.key()).collect();
    keys.sort();
    keys.dedup();
    assert_eq!(keys.len(), items.len());
    assert_eq!(ids(&items), ids(&[post("b", "2"), post("c", "1"), post("d", "1")]));
}
