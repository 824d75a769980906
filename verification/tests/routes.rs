use rust_todo::Message;
use rust_todo::db::Database;
use rust_todo::db::TodoItem;
use rust_todo::router;
use rust_todo::router::ApiBody;
use rust_todo::server::TodoServer;

fn fresh() -> Database {
    Database::new_in_memory().expect("in-memory store")
}

#[test]
fn crud_round_trip_over_the_routes() {
    let mut db = fresh();

    let r = router::insert(&mut db, "buy milk");
    assert_eq!(r.status, 201);
    match r.body {
        ApiBody::Item(it) => {
            assert_eq!(it.id, Some(1));
            assert_eq!(it.title, "buy milk");
            assert_eq!(it.is_done, 0);
        },
        other => panic!("expected an item, got {:?}", other),
    }

    let r = router::insert(&mut db, "buy milk");
    assert_eq!(r.status, 409);
    match r.body {
        ApiBody::Note(m) => assert_eq!(m.message, "Item already exists"),
        other => panic!("expected a note, got {:?}", other),
    }

    let r = router::update(&mut db, 1, "buy milk", 1);
    assert_eq!(r.status, 200);
    match r.body {
        ApiBody::Item(it) => {
            assert_eq!(it.id, Some(1));
            assert_eq!(it.title, "buy milk");
            assert_eq!(it.is_done, 1);
        },
        other => panic!("expected an item, got {:?}", other),
    }

    let r = router::delete(&mut db, 1);
    assert_eq!(r.status, 200);
    match r.body {
        ApiBody::Note(m) => assert_eq!(m.message, "Item was deleted"),
        other => panic!("expected a note, got {:?}", other),
    }

    let r = router::get_by_id(&db, 1);
    assert_eq!(r.status, 404);
    match r.body {
        ApiBody::Note(m) => assert_eq!(m.message, "Item not found"),
        other => panic!("expected a note, got {:?}", other),
    }
}

#[test]
fn index_on_empty_store_is_an_empty_collection() {
    let db = fresh();
    let r = router::index(&db);
    assert_eq!(r.status, 200);
    match r.body {
        ApiBody::Items(items) => assert!(items.is_empty()),
        other => panic!("expected a collection, got {:?}", other),
    }
}

#[test]
fn index_lists_what_was_inserted() {
    let mut db = fresh();
    router::insert(&mut db, "a");
    router::insert(&mut db, "b");
    let r = router::index(&db);
    assert_eq!(r.status, 200);
    match r.body {
        ApiBody::Items(items) => {
            assert_eq!(items.len(), 2);
            let mut titles: Vec<String> = items.iter().map(|it| it.title.clone()).collect();
            titles.sort();
            assert_eq!(titles, vec!["a", "b"]);
        },
        other => panic!("expected a collection, got {:?}", other),
    }
}

#[test]
fn get_by_id_finds_a_stored_item() {
    let mut db = fresh();
    let a = db.insert(TodoItem::new("a")).expect("insert");
    let r = router::get_by_id(&db, a.id.unwrap());
    assert_eq!(r.status, 200);
    match r.body {
        ApiBody::Item(it) => assert_eq!(it, a),
        other => panic!("expected an item, got {:?}", other),
    }
}

#[test]
fn update_of_a_missing_id_is_404() {
    let mut db = fresh();
    let r = router::update(&mut db, 9, "a", 0);
    assert_eq!(r.status, 404);
    match r.body {
        ApiBody::Note(m) => assert_eq!(m.message, "Item not found"),
        other => panic!("expected a note, got {:?}", other),
    }
}

#[test]
fn update_into_a_taken_title_is_409() {
    let mut db = fresh();
    router::insert(&mut db, "a");
    let r = router::insert(&mut db, "b");
    assert_eq!(r.status, 201);
    let r = router::update(&mut db, 2, "a", 0);
    assert_eq!(r.status, 409);
    match r.body {
        ApiBody::Note(m) => assert_eq!(m.message, "Duplicate title"),
        other => panic!("expected a note, got {:?}", other),
    }
}

#[test]
fn delete_of_a_missing_id_is_404() {
    let mut db = fresh();
    let r = router::delete(&mut db, 3);
    assert_eq!(r.status, 404);
    match r.body {
        ApiBody::Note(m) => assert_eq!(m.message, "Item not found"),
        other => panic!("expected a note, got {:?}", other),
    }
}

#[test]
fn server_configuration_holds_the_address() {
    let s = TodoServer::new(String::from("0.0.0.0"), 9000);
    assert_eq!(s.host, "0.0.0.0");
    assert_eq!(s.port, 9000);
}

#[test]
fn message_carries_its_text() {
    let m = Message::new("hello");
    assert_eq!(m.message, "hello");
}
