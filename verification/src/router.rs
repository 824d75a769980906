//! The request router's decisions: one function per route, each mapping
//! its inputs and the store's outcome to an HTTP status code and a body.
//!
//! The HTTP plumbing itself (listening, JSON encoding and decoding) lives
//! outside the library; these functions take the already-decoded inputs
//! and hand back what the wire layer must send.

use vstd::prelude::*;

use crate::Message;
use crate::db::Database;
use crate::db::DBError;
use crate::db::TodoItem;
use crate::db::listing_of;
use crate::sql;

verus! {

/// What a reply carries: the whole collection, one item, or a note.
#[derive(Debug, Clone, PartialEq)]
pub enum ApiBody {
    Items(Vec<TodoItem>),
    Item(TodoItem),
    Note(Message),
}

/// A reply: an HTTP status code and the body to encode as JSON.
#[derive(Debug, Clone, PartialEq)]
pub struct ApiResponse {
    pub status: u16,
    pub body: ApiBody,
}

/// `GET /` — the whole collection: 200 with every item, or 500 on an
/// engine failure.
pub fn index(db: &Database) -> (r: ApiResponse)
    requires
        db.inv(),
    ensures
        r.status == 200 || r.status == 500,
        r.status == 200 ==> r.body is Items && listing_of(r.body->Items_0@, db.rows()),
        r.status == 200 && db.rows() == sql::empty_table() ==> r.body->Items_0@.len() == 0,
        r.status == 500 ==> r.body is Note,
{
    match db.list() {
        Ok(items) => ApiResponse { status: 200, body: ApiBody::Items(items) },
        Err(DBError::InternalError(m)) => ApiResponse { status: 500, body: ApiBody::Note(m) },
        Err(DBError::NotFound(m)) => ApiResponse { status: 500, body: ApiBody::Note(m) },
        Err(DBError::Conflict(m)) => ApiResponse { status: 500, body: ApiBody::Note(m) },
    }
}

/// `GET /{id}/` — one item: 200 with exactly the stored row, 404 when no
/// row has the id, 500 on an engine failure.
pub fn get_by_id(db: &Database, id: u32) -> (r: ApiResponse)
    requires
        db.inv(),
    ensures
        r.status == 200 || r.status == 404 || r.status == 500,
        r.status == 200 ==> r.body is Item && r.body->Item_0.id == Some(id)
            && db.rows().contains_pair(id, (r.body->Item_0.title@, r.body->Item_0.is_done)),
        r.status == 404 ==> !db.rows().dom().contains(id) && r.body is Note
            && r.body->Note_0.message@ == "Item not found"@,
        r.status == 500 ==> r.body is Note,
        !db.rows().dom().contains(id) ==> r.status != 200,
        db.rows().dom().contains(id) ==> r.status != 404,
{
    match db.get(id) {
        Ok(item) => ApiResponse { status: 200, body: ApiBody::Item(item) },
        Err(DBError::NotFound(m)) => ApiResponse { status: 404, body: ApiBody::Note(m) },
        Err(DBError::InternalError(m)) => ApiResponse { status: 500, body: ApiBody::Note(m) },
        Err(DBError::Conflict(m)) => ApiResponse { status: 500, body: ApiBody::Note(m) },
    }
}

/// `POST /` — create from a title: 201 with the stored item under its
/// fresh id, 409 when the engine refuses a duplicate — a title already
/// stored never yields a 201 — and 500 on an engine failure; nothing
/// changes unless it is a 201.
pub fn insert(db: &mut Database, title: &str) -> (r: ApiResponse)
    requires
        old(db).inv(),
        title@.len() > 0,
    ensures
        final(db).inv(),
        r.status == 201 || r.status == 409 || r.status == 500,
        r.status == 201 ==> r.body is Item && ({
            let it = r.body->Item_0;
            &&& it.id is Some
            &&& it.id->Some_0 == old(db).next_id()
            &&& !old(db).rows().dom().contains(it.id->Some_0)
            &&& !sql::has_title(old(db).rows(), title@)
            &&& it.title@ == title@
            &&& it.is_done == 0
            &&& final(db).rows() == old(db).rows().insert(it.id->Some_0, (title@, 0u8))
            &&& final(db).next_id() == old(db).next_id() + 1
        }),
        r.status == 409 ==> final(db).rows() == old(db).rows() && r.body is Note
            && r.body->Note_0.message@ == "Item already exists"@,
        r.status == 500 ==> final(db).rows() == old(db).rows() && r.body is Note,
        sql::has_title(old(db).rows(), title@) ==> r.status != 201,
{
    match db.insert(TodoItem::new(title)) {
        Ok(item) => ApiResponse { status: 201, body: ApiBody::Item(item) },
        Err(DBError::Conflict(m)) => ApiResponse { status: 409, body: ApiBody::Note(m) },
        Err(DBError::InternalError(m)) => ApiResponse { status: 500, body: ApiBody::Note(m) },
        Err(DBError::NotFound(m)) => ApiResponse { status: 500, body: ApiBody::Note(m) },
    }
}

/// `PATCH /{id}/` — full-record update of the row with the path's id:
/// 200 with the new record, 404 when no row has the id, 409 when the
/// engine refuses a duplicate title — a title another stored row carries
/// never yields a 200 or a 404 — and 500 on an engine failure; nothing
/// changes unless it is a 200.
pub fn update(db: &mut Database, id: u32, title: &str, is_done: u8) -> (r: ApiResponse)
    requires
        old(db).inv(),
        title@.len() > 0,
        is_done <= 1,
    ensures
        final(db).inv(),
        r.status == 200 || r.status == 404 || r.status == 409 || r.status == 500,
        r.status == 200 ==> old(db).rows().dom().contains(id) && !sql::other_has_title(
            old(db).rows(),
            id,
            title@,
        ) && final(db).rows() == old(db).rows().insert(id, (title@, is_done)) && r.body is Item
            && r.body->Item_0.id == Some(id) && r.body->Item_0.title@ == title@
            && r.body->Item_0.is_done == is_done,
        r.status == 404 ==> !old(db).rows().dom().contains(id) && final(db).rows() == old(
            db,
        ).rows() && r.body is Note && r.body->Note_0.message@ == "Item not found"@,
        r.status == 409 ==> old(db).rows().dom().contains(id) && final(db).rows() == old(
            db,
        ).rows() && r.body is Note && r.body->Note_0.message@ == "Duplicate title"@,
        r.status == 500 ==> final(db).rows() == old(db).rows() && r.body is Note,
        !old(db).rows().dom().contains(id) ==> r.status != 200 && r.status != 409,
        old(db).rows().dom().contains(id) && sql::other_has_title(old(db).rows(), id, title@)
            ==> r.status != 200 && r.status != 404,
{
    let item = TodoItem { id: Some(id), title: String::from_str(title), is_done };
    match db.update(&item) {
        Ok(()) => ApiResponse { status: 200, body: ApiBody::Item(item) },
        Err(DBError::NotFound(m)) => ApiResponse { status: 404, body: ApiBody::Note(m) },
        Err(DBError::Conflict(m)) => ApiResponse { status: 409, body: ApiBody::Note(m) },
        Err(DBError::InternalError(m)) => ApiResponse { status: 500, body: ApiBody::Note(m) },
    }
}

/// `DELETE /{id}/` — removes the row with the path's id: 200 with an
/// acknowledgement, 404 when no row has the id, 500 on an engine failure;
/// nothing changes unless it is a 200.
pub fn delete(db: &mut Database, id: u32) -> (r: ApiResponse)
    requires
        old(db).inv(),
    ensures
        final(db).inv(),
        r.status == 200 || r.status == 404 || r.status == 500,
        r.status == 200 ==> old(db).rows().dom().contains(id) && final(db).rows() == old(
            db,
        ).rows().remove(id) && r.body is Note && r.body->Note_0.message@ == "Item was deleted"@,
        r.status == 404 ==> !old(db).rows().dom().contains(id) && final(db).rows() == old(
            db,
        ).rows() && r.body is Note && r.body->Note_0.message@ == "Item not found"@,
        r.status == 500 ==> final(db).rows() == old(db).rows() && r.body is Note,
        !old(db).rows().dom().contains(id) ==> r.status != 200,
        old(db).rows().dom().contains(id) ==> r.status != 404,
{
    match db.delete(id) {
        Ok(()) => ApiResponse { status: 200, body: ApiBody::Note(Message::new("Item was deleted")) },
        Err(DBError::NotFound(m)) => ApiResponse { status: 404, body: ApiBody::Note(m) },
        Err(DBError::InternalError(m)) => ApiResponse { status: 500, body: ApiBody::Note(m) },
        Err(DBError::Conflict(m)) => ApiResponse { status: 500, body: ApiBody::Note(m) },
    }
}

} // verus!
