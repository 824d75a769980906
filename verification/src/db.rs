//! The item store: durable CRUD for todo records against one table, over
//! one connection held for the store's lifetime.
//!
//! Every operation states over the table model (`Database::rows`) exactly
//! which rows it touches, when it succeeds, and which error it raises when
//! it does not: a missing row is `NotFound`, a duplicated title `Conflict`,
//! and an engine failure `InternalError`.

use vstd::prelude::*;

use crate::Message;
use crate::sql;

verus! {

/// A todo record: the id is absent until the store assigns one.
#[derive(Debug, Clone, PartialEq)]
pub struct TodoItem {
    pub id: Option<u32>,
    pub title: String,
    pub is_done: u8,
}

impl TodoItem {
    /// A fresh, not yet persisted record: no id, not done.
    pub fn new(title: &str) -> (r: TodoItem)
        ensures
            r.id is None,
            r.title@ == title@,
            r.is_done == 0,
    {
        TodoItem { id: None, title: String::from_str(title), is_done: 0 }
    }
}

/// The store's error taxonomy: no row matched a keyed lookup, the
/// uniqueness constraint was violated, or the engine failed.
#[derive(Debug, Clone, PartialEq)]
pub enum DBError {
    NotFound(Message),
    Conflict(Message),
    InternalError(Message),
}

/// The data model's own invariants over the stored rows: every done flag
/// is 0 or 1 and every title is non-empty.  The store's constructors for
/// fresh databases establish it and every mutation preserves it; a
/// pre-existing file is not assumed to satisfy it.
pub open spec fn content_valid(m: Map<u32, (Seq<char>, u8)>) -> bool {
    forall|k: u32| #[trigger] m.dom().contains(k) ==> m[k].1 <= 1 && m[k].0.len() > 0
}

/// `v` enumerates exactly the rows of `m`: every element is a row of `m`
/// under its id, no id repeats, and every row appears.
pub open spec fn listing_of(v: Seq<TodoItem>, m: Map<u32, (Seq<char>, u8)>) -> bool {
    &&& forall|i: int|
        0 <= i < v.len() ==> (#[trigger] v[i]).id is Some && m.contains_pair(
            v[i].id->Some_0,
            (v[i].title@, v[i].is_done),
        )
    &&& forall|i: int, j: int|
        #![trigger v[i], v[j]]
        0 <= i < j < v.len() ==> v[i].id != v[j].id
    &&& forall|k: u32|
        #[trigger] m.dom().contains(k) ==> exists|i: int|
            0 <= i < v.len() && (#[trigger] v[i]).id == Some(k)
}

/// The persistence component: owns the connection and the schema.
pub struct Database {
    conn: rusqlite::Connection,
}

impl Database {
    /// The rows of the store, keyed by id; each row is the title and the
    /// done flag.
    pub closed spec fn rows(&self) -> Map<u32, (Seq<char>, u8)> {
        sql::table_of(self.conn)
    }

    /// The id the next successful insert will be assigned.
    pub closed spec fn next_id(&self) -> int {
        sql::next_rowid(self.conn)
    }

    /// The store is usable: its table exists with the schema `init` lays
    /// down, so ids stay below the assignment counter and titles are unique.
    pub closed spec fn inv(&self) -> bool {
        sql::schema_ready(self.conn) && sql::table_wf(self.rows(), self.next_id())
    }

    /// Opens the database in the named file, or in memory if the file
    /// cannot be opened, and ensures the table exists with the expected
    /// schema.  Nothing is known of a file's prior contents, so only the
    /// store's validity is promised.  The store must be its database's
    /// only handle: one connection per process, opened once at startup.
    /// Opening the same file twice is outside the contracts.
    pub fn new(filename: String) -> (r: Option<Database>)
        ensures
            r matches Some(db) ==> db.inv(),
    {
        let conn_opt = match sql::open_path(filename.as_str()) {
            Some(c) => Some(c),
            None => sql::open_memory(),
        };
        match conn_opt {
            Some(conn) => {
                let mut db = Database { conn };
                match db.init() {
                    Ok(()) => Some(db),
                    Err(_) => None,
                }
            },
            None => None,
        }
    }

    /// Opens a fresh in-memory store: valid, empty, first id 1.
    pub fn new_in_memory() -> (r: Option<Database>)
        ensures
            r matches Some(db) ==> db.inv() && db.rows() == sql::empty_table() && db.next_id()
                == 1 && content_valid(db.rows()),
    {
        match sql::open_memory() {
            Some(conn) => {
                let mut db = Database { conn };
                match db.init() {
                    Ok(()) => Some(db),
                    Err(_) => None,
                }
            },
            None => None,
        }
    }

    /// Idempotently ensures the table exists, then reads the schema the
    /// engine actually holds and accepts the store only if it is exactly
    /// the expected one; a valid store is left as it was.  Any other
    /// outcome — the table cannot be created, or a pre-existing `todo`
    /// table has another shape — is an `InternalError`, fatal at startup.
    pub fn init(&mut self) -> (r: Result<(), DBError>)
        ensures
            r is Ok ==> final(self).inv(),
            r is Ok && old(self).inv() ==> final(self).rows() == old(self).rows()
                && final(self).next_id() == old(self).next_id(),
            r is Ok && old(self).rows() == sql::empty_table() && old(self).next_id() == 1
                ==> final(self).rows() == sql::empty_table() && final(self).next_id() == 1,
            r is Err ==> r->Err_0 is InternalError,
            r is Err && old(self).inv() ==> final(self).inv() && final(self).rows() == old(self).rows() && final(self).next_id() == old(self).next_id(),
    {
        match sql::create_todo_table(&mut self.conn) {
            Ok(()) => {},
            Err(()) => {
                return Err(
                    DBError::InternalError(
                        Message::new("Failed to execute create table SQL statement"),
                    ),
                );
            },
        }
        let expected = String::from_str(
            "CREATE TABLE todo (id INTEGER PRIMARY KEY AUTOINCREMENT, title TEXT UNIQUE NOT NULL, isdone INTEGER DEFAULT 0)",
        );
        match sql::todo_table_sql(&self.conn) {
            Ok(Some(text)) => {
                if text == expected {
                    Ok(())
                } else {
                    Err(DBError::InternalError(Message::new("Unexpected todo table schema")))
                }
            },
            Ok(None) => Err(DBError::InternalError(Message::new("The todo table is missing"))),
            Err(()) => Err(
                DBError::InternalError(Message::new("Failed to read the todo table schema")),
            ),
        }
    }

    /// Inserts a not-yet-persisted, well-formed item.  Success assigns the
    /// next fresh id and adds exactly that row; a stored duplicate of the
    /// title means the insert can never succeed, and a `Conflict` is the
    /// engine's uniqueness refusal with its exact message; every failure
    /// adds nothing.  That the assignment counter stands still across a
    /// failure holds while it is within the interface's id space.
    pub fn insert(&mut self, item: TodoItem) -> (r: Result<TodoItem, DBError>)
        requires
            old(self).inv(),
            item.id is None,
            item.is_done <= 1,
            item.title@.len() > 0,
        ensures
            final(self).inv(),
            r is Ok ==> r->Ok_0.id is Some && r->Ok_0.id->Some_0 == old(self).next_id() && !old(self).rows().dom().contains(r->Ok_0.id->Some_0) && !sql::has_title(
                old(self).rows(),
                item.title@,
            ) && r->Ok_0.title@ == item.title@ && r->Ok_0.is_done == item.is_done && final(self).rows() == old(self).rows().insert(r->Ok_0.id->Some_0, (item.title@, item.is_done))
                && final(self).next_id() == old(self).next_id() + 1,
            r is Err ==> final(self).rows() == old(self).rows(),
            r is Err && old(self).next_id() <= u32::MAX ==> final(self).next_id() == old(self).next_id(),
            r is Err ==> !(r->Err_0 is NotFound),
            r is Err && r->Err_0 is Conflict ==> r->Err_0->Conflict_0.message@
                == "Item already exists"@,
            sql::has_title(old(self).rows(), item.title@) ==> r is Err,
            content_valid(old(self).rows()) ==> content_valid(final(self).rows()),
    {
        match sql::exec_insert(&mut self.conn, &item.title, item.is_done) {
            Ok(id) => Ok(TodoItem { id: Some(id), title: item.title, is_done: item.is_done }),
            Err(sql::ExecFailure::Constraint) => Err(
                DBError::Conflict(Message::new("Item already exists")),
            ),
            Err(sql::ExecFailure::Other) => Err(
                DBError::InternalError(Message::new("Failed to execute insert SQL statement")),
            ),
        }
    }

    /// Updates the row keyed by the item's id with a well-formed record,
    /// touching title and done flag.  A missing row is `NotFound` and never
    /// a `Conflict`; a title another stored row carries means the update
    /// can never succeed and is never `NotFound`; a `Conflict` is the
    /// engine's uniqueness refusal — it shows the keyed row exists and
    /// carries its exact message; every failure leaves the store unchanged.
    pub fn update(&mut self, item: &TodoItem) -> (r: Result<(), DBError>)
        requires
            old(self).inv(),
            item.id is Some,
            item.is_done <= 1,
            item.title@.len() > 0,
        ensures
            final(self).inv(),
            final(self).next_id() == old(self).next_id(),
            r is Ok ==> old(self).rows().dom().contains(item.id->Some_0) && !sql::other_has_title(
                old(self).rows(),
                item.id->Some_0,
                item.title@,
            ) && final(self).rows() == old(self).rows().insert(
                item.id->Some_0,
                (item.title@, item.is_done),
            ),
            r is Err ==> final(self).rows() == old(self).rows(),
            r is Err && r->Err_0 is NotFound ==> !old(self).rows().dom().contains(item.id->Some_0)
                && r->Err_0->NotFound_0.message@ == "Item not found"@,
            r is Err && r->Err_0 is Conflict ==> old(self).rows().dom().contains(item.id->Some_0)
                && r->Err_0->Conflict_0.message@ == "Duplicate title"@,
            !old(self).rows().dom().contains(item.id->Some_0) ==> r is Err && !(
            r->Err_0 is Conflict),
            old(self).rows().dom().contains(item.id->Some_0) && sql::other_has_title(
                old(self).rows(),
                item.id->Some_0,
                item.title@,
            ) ==> r is Err && !(r->Err_0 is NotFound),
            content_valid(old(self).rows()) ==> content_valid(final(self).rows()),
    {
        let id = match item.id {
            Some(id) => id,
            None => {
                return Err(DBError::InternalError(Message::new("Item has no id")));
            },
        };
        match sql::exec_update(&mut self.conn, id, &item.title, item.is_done) {
            Ok(rows) => {
                if rows == 1 {
                    Ok(())
                } else if rows == 0 {
                    Err(DBError::NotFound(Message::new("Item not found")))
                } else {
                    Err(DBError::InternalError(Message::new("Unexpected number of rows changed")))
                }
            },
            Err(sql::ExecFailure::Constraint) => Err(
                DBError::Conflict(Message::new("Duplicate title")),
            ),
            Err(sql::ExecFailure::Other) => Err(
                DBError::InternalError(Message::new("Failed to execute update SQL statement")),
            ),
        }
    }

    /// Deletes the row with the given id; removal is permanent.  A missing
    /// row is `NotFound` and never a success; every failure leaves the
    /// store unchanged.
    pub fn delete(&mut self, id: u32) -> (r: Result<(), DBError>)
        requires
            old(self).inv(),
        ensures
            final(self).inv(),
            final(self).next_id() == old(self).next_id(),
            r is Ok ==> old(self).rows().dom().contains(id) && final(self).rows() == old(self).rows().remove(id),
            r is Err ==> final(self).rows() == old(self).rows(),
            r is Err && r->Err_0 is NotFound ==> !old(self).rows().dom().contains(id)
                && r->Err_0->NotFound_0.message@ == "Item not found"@,
            r is Err ==> !(r->Err_0 is Conflict),
            !old(self).rows().dom().contains(id) ==> r is Err,
            content_valid(old(self).rows()) ==> content_valid(final(self).rows()),
    {
        match sql::exec_delete(&mut self.conn, id) {
            Ok(rows) => {
                if rows == 1 {
                    Ok(())
                } else if rows == 0 {
                    Err(DBError::NotFound(Message::new("Item not found")))
                } else {
                    Err(DBError::InternalError(Message::new("Unexpected number of rows changed")))
                }
            },
            Err(()) => Err(
                DBError::InternalError(Message::new("Failed to execute delete SQL statement")),
            ),
        }
    }

    /// Lists every row as an item, in the engine's own retrieval order.
    /// A success carries each row exactly once — an empty store yields an
    /// empty sequence — and a failure is only ever an `InternalError`.
    pub fn list(&self) -> (r: Result<Vec<TodoItem>, DBError>)
        requires
            self.inv(),
        ensures
            r matches Ok(v) ==> listing_of(v@, self.rows()),
            r matches Ok(v) ==> self.rows() == sql::empty_table() ==> v@.len() == 0,
            r is Err ==> r->Err_0 is InternalError,
    {
        match sql::query_all(&self.conn) {
            Ok(rows) => {
                let mut out: Vec<TodoItem> = Vec::new();
                let mut i: usize = 0;
                while i < rows.len()
                    invariant
                        self.inv(),
                        0 <= i <= rows@.len(),
                        out@.len() == i,
                        forall|j: int|
                            0 <= j < i ==> (#[trigger] out@[j]).id == Some(rows@[j].0)
                                && out@[j].title@ == rows@[j].1@ && out@[j].is_done == rows@[j].2,
                        forall|i0: int|
                            0 <= i0 < rows@.len() ==> sql::table_of(self.conn).contains_pair(
                                (#[trigger] rows@[i0]).0,
                                (rows@[i0].1@, rows@[i0].2),
                            ),
                        forall|i0: int, j0: int|
                            #![trigger rows@[i0], rows@[j0]]
                            0 <= i0 < j0 < rows@.len() ==> rows@[i0].0 != rows@[j0].0,
                        forall|k: u32|
                            #[trigger] sql::table_of(self.conn).dom().contains(k) ==> exists|
                                i0: int,
                            | 0 <= i0 < rows@.len() && (#[trigger] rows@[i0]).0 == k,
                    decreases rows@.len() - i,
                {
                    let row = &rows[i];
                    out.push(TodoItem { id: Some(row.0), title: row.1.clone(), is_done: row.2 });
                    i = i + 1;
                }
                proof {
                    assert forall|k: u32| #[trigger]
                        self.rows().dom().contains(k) implies exists|i0: int|
                        0 <= i0 < out@.len() && (#[trigger] out@[i0]).id == Some(k) by {
                        let i0 = choose|i0: int|
                            0 <= i0 < rows@.len() && (#[trigger] rows@[i0]).0 == k;
                        assert(out@[i0].id == Some(k));
                    }
                    if self.rows() == sql::empty_table() && out@.len() > 0 {
                        assert(sql::table_of(self.conn).contains_pair(
                            rows@[0].0,
                            (rows@[0].1@, rows@[0].2),
                        ));
                        assert(false);
                    }
                }
                Ok(out)
            },
            Err(()) => Err(
                DBError::InternalError(Message::new("Failed to execute list SQL statement")),
            ),
        }
    }

    /// Fetches the single row with the given id.  A success carries exactly
    /// that row; a missing row is `NotFound` and never a success; a
    /// decoding or engine failure is an `InternalError`.
    pub fn get(&self, id: u32) -> (r: Result<TodoItem, DBError>)
        requires
            self.inv(),
        ensures
            r is Ok ==> r->Ok_0.id == Some(id) && self.rows().contains_pair(
                id,
                (r->Ok_0.title@, r->Ok_0.is_done),
            ),
            r is Err ==> !(r->Err_0 is Conflict),
            r is Err && r->Err_0 is NotFound ==> !self.rows().dom().contains(id)
                && r->Err_0->NotFound_0.message@ == "Item not found"@,
            !self.rows().dom().contains(id) ==> !(r is Ok),
            self.rows().dom().contains(id) ==> r is Ok || r->Err_0 is InternalError,
    {
        match sql::query_by_id(&self.conn, id) {
            Ok(Some(row)) => Ok(TodoItem { id: Some(row.0), title: row.1, is_done: row.2 }),
            Ok(None) => Err(DBError::NotFound(Message::new("Item not found"))),
            Err(()) => Err(
                DBError::InternalError(Message::new("Failed to execute get SQL statement")),
            ),
        }
    }
}

/// A valid store keeps the data model's uniqueness: no two stored rows
/// share a title, and every id lies below the assignment counter.
pub proof fn lemma_inv_titles_unique(db: &Database)
    requires
        db.inv(),
    ensures
        sql::table_wf(db.rows(), db.next_id()),
{
}

/// A fresh id is unassigned: in a valid store the assignment counter lies
/// above every id a row holds, so the id an insert hands out was held by
/// no row — and, since no operation ever moves the counter back, by no
/// row that ever existed.
pub proof fn lemma_fresh_id_unassigned(m: Map<u32, (Seq<char>, u8)>, next: int, id: u32)
    requires
        sql::table_wf(m, next),
        id == next,
    ensures
        !m.dom().contains(id),
        forall|k: u32| #[trigger] m.dom().contains(k) ==> k < id,
{
}

/// Round trip: once an insert has added a row under a fresh id, the store
/// maps that id to exactly the inserted title and flag, so `get` of that
/// id can only hand the inserted record back (its contract ties a success
/// to the mapped row and allows `NotFound` only on absent ids).
pub proof fn lemma_insert_get_round_trip(
    m: Map<u32, (Seq<char>, u8)>,
    id: u32,
    title: Seq<char>,
    is_done: u8,
)
    ensures
        m.insert(id, (title, is_done)).dom().contains(id),
        m.insert(id, (title, is_done))[id] == (title, is_done),
{
}

/// Deletion is final: once a delete has removed a row, the store no longer
/// maps its id, so `get` of that id can never again succeed (its contract
/// refuses a success on an absent id).
pub proof fn lemma_delete_get_not_found(m: Map<u32, (Seq<char>, u8)>, id: u32)
    ensures
        !m.remove(id).dom().contains(id),
{
}

} // verus!
