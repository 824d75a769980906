use rust_todo::db::DBError;
use rust_todo::db::Database;
use rust_todo::db::TodoItem;

fn fresh() -> Database {
    Database::new_in_memory().expect("in-memory store")
}

#[test]
fn new_item_has_no_id_and_is_not_done() {
    let it = TodoItem::new("wash dishes");
    assert_eq!(it.id, None);
    assert_eq!(it.title, "wash dishes");
    assert_eq!(it.is_done, 0);
}

#[test]
fn insert_fresh_title_succeeds_with_new_id() {
    let mut db = fresh();
    let a = db.insert(TodoItem::new("a")).expect("insert a");
    assert_eq!(a.id, Some(1));
    assert_eq!(a.title, "a");
    assert_eq!(a.is_done, 0);
    let b = db.insert(TodoItem::new("b")).expect("insert b");
    assert_eq!(b.id, Some(2));
}

#[test]
fn insert_duplicate_title_conflicts_and_changes_nothing() {
    let mut db = fresh();
    let a = db.insert(TodoItem::new("a")).expect("insert a");
    let err = db.insert(TodoItem::new("a")).unwrap_err();
    match err {
        DBError::Conflict(m) => assert_eq!(m.message, "Item already exists"),
        other => panic!("expected a conflict, got {:?}", other),
    }
    let items = db.list().expect("list");
    assert_eq!(items.len(), 1);
    assert_eq!(items[0], a);
}

#[test]
fn get_after_insert_round_trips() {
    let mut db = fresh();
    let a = db.insert(TodoItem::new("buy milk")).expect("insert");
    let got = db.get(a.id.unwrap()).expect("get");
    assert_eq!(got, a);
}

#[test]
fn update_nonexistent_id_is_not_found_and_changes_nothing() {
    let mut db = fresh();
    db.insert(TodoItem::new("a")).expect("insert");
    let probe = TodoItem { id: Some(42), title: String::from("b"), is_done: 1 };
    let err = db.update(&probe).unwrap_err();
    match err {
        DBError::NotFound(m) => assert_eq!(m.message, "Item not found"),
        other => panic!("expected not found, got {:?}", other),
    }
    let items = db.list().expect("list");
    assert_eq!(items.len(), 1);
    assert_eq!(items[0].title, "a");
    assert_eq!(items[0].is_done, 0);
}

#[test]
fn update_to_duplicate_title_conflicts_and_leaves_row_untouched() {
    let mut db = fresh();
    db.insert(TodoItem::new("a")).expect("insert a");
    let b = db.insert(TodoItem::new("b")).expect("insert b");
    let probe = TodoItem { id: b.id, title: String::from("a"), is_done: 1 };
    let err = db.update(&probe).unwrap_err();
    match err {
        DBError::Conflict(m) => assert_eq!(m.message, "Duplicate title"),
        other => panic!("expected a conflict, got {:?}", other),
    }
    let again = db.get(b.id.unwrap()).expect("get b");
    assert_eq!(again.title, "b");
    assert_eq!(again.is_done, 0);
}

#[test]
fn update_changes_title_and_flag() {
    let mut db = fresh();
    let a = db.insert(TodoItem::new("a")).expect("insert");
    let newer = TodoItem { id: a.id, title: String::from("c"), is_done: 1 };
    db.update(&newer).expect("update");
    let got = db.get(a.id.unwrap()).expect("get");
    assert_eq!(got.title, "c");
    assert_eq!(got.is_done, 1);
}

#[test]
fn update_to_own_title_is_no_conflict() {
    let mut db = fresh();
    let a = db.insert(TodoItem::new("a")).expect("insert");
    let same = TodoItem { id: a.id, title: String::from("a"), is_done: 1 };
    db.update(&same).expect("update");
    let got = db.get(a.id.unwrap()).expect("get");
    assert_eq!(got.title, "a");
    assert_eq!(got.is_done, 1);
}

#[test]
fn delete_then_get_is_not_found() {
    let mut db = fresh();
    let a = db.insert(TodoItem::new("a")).expect("insert");
    db.delete(a.id.unwrap()).expect("delete");
    match db.get(a.id.unwrap()).unwrap_err() {
        DBError::NotFound(m) => assert_eq!(m.message, "Item not found"),
        other => panic!("expected not found, got {:?}", other),
    }
}

#[test]
fn delete_nonexistent_id_is_not_found() {
    let mut db = fresh();
    match db.delete(7).unwrap_err() {
        DBError::NotFound(m) => assert_eq!(m.message, "Item not found"),
        other => panic!("expected not found, got {:?}", other),
    }
}

#[test]
fn list_on_empty_store_is_empty() {
    let db = fresh();
    let items = db.list().expect("list");
    assert!(items.is_empty());
}

#[test]
fn list_returns_every_row_once() {
    let mut db = fresh();
    db.insert(TodoItem::new("a")).expect("insert a");
    db.insert(TodoItem::new("b")).expect("insert b");
    db.insert(TodoItem::new("c")).expect("insert c");
    let items = db.list().expect("list");
    assert_eq!(items.len(), 3);
    let mut titles: Vec<String> = items.iter().map(|it| it.title.clone()).collect();
    titles.sort();
    assert_eq!(titles, vec!["a", "b", "c"]);
}

#[test]
fn deleted_id_is_never_reassigned() {
    let mut db = fresh();
    db.insert(TodoItem::new("a")).expect("insert a");
    let b = db.insert(TodoItem::new("b")).expect("insert b");
    db.delete(b.id.unwrap()).expect("delete b");
    let c = db.insert(TodoItem::new("c")).expect("insert c");
    assert_eq!(c.id, Some(3));
}

#[test]
fn init_is_idempotent() {
    let mut db = fresh();
    db.insert(TodoItem::new("a")).expect("insert");
    db.init().expect("init again");
    let items = db.list().expect("list");
    assert_eq!(items.len(), 1);
    assert_eq!(items[0].title, "a");
}

#[test]
fn new_opens_a_usable_store() {
    let mut db = Database::new(String::from(":memory:")).expect("open");
    let a = db.insert(TodoItem::new("a")).expect("insert");
    assert_eq!(a.id, Some(1));
    let got = db.get(1).expect("get");
    assert_eq!(got.title, "a");
}

#[test]
fn engine_records_the_expected_create_statement() {
    // The library accepts a store only when the engine's recorded CREATE
    // statement for the todo table is exactly the expected text; this
    // pins that text against the engine actually linked.
    let conn = rusqlite::Connection::open_in_memory().expect("open");
    conn.execute(
        "CREATE TABLE IF NOT EXISTS todo (id INTEGER PRIMARY KEY AUTOINCREMENT, title TEXT UNIQUE NOT NULL, isdone INTEGER DEFAULT 0)",
        (),
    )
    .expect("create");
    let recorded: String = conn
        .query_row(
            "SELECT sql FROM sqlite_master WHERE type = 'table' AND name = 'todo'",
            (),
            |row| row.get(0),
        )
        .expect("read schema");
    assert_eq!(
        recorded,
        "CREATE TABLE todo (id INTEGER PRIMARY KEY AUTOINCREMENT, title TEXT UNIQUE NOT NULL, isdone INTEGER DEFAULT 0)"
    );
}
