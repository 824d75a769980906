//! The trusted boundary to the SQLite engine.
//!
//! The `todo` table is modelled as a map from id to row: each row is the
//! title (a sequence of characters) and the done flag (a byte).  Two further
//! names describe the engine's bookkeeping: the id its autoincrement counter
//! would give the next inserted row, and whether the table exists with the
//! schema this module's statements lay down.  Ids are modelled as `u32`,
//! the id space of this library's interface.  A row outside that space —
//! the counter past it, or a rowid another tool chose, which the engine
//! permits even below zero — is one the map cannot key: such a row can
//! cause a uniqueness refusal, so no contract traces a `Constraint`
//! failure back to a clashing row of the map; what a failure leaves
//! untouched, and what a success did, are stated in full.
//!
//! The names pin the table to the `Connection` value, so every contract
//! here assumes the connection is the only handle on its database — the
//! one-connection-per-process design the library is built around.  Two
//! connections to one file are outside the model.

use vstd::prelude::*;

verus! {

#[verifier::external_type_specification]
#[verifier::external_body]
pub struct ExConnection(rusqlite::Connection);

/// The rows of the `todo` table held by this connection whose rowid lies
/// within the interface's id space (a `u32`), keyed by that id and valued
/// as the stored title and flag; empty while the table does not exist.  A
/// row whose stored values do not fit the interface's shape surfaces as a
/// read failure, never as a made-up entry.
pub uninterp spec fn table_of(conn: rusqlite::Connection) -> Map<u32, (Seq<char>, u8)>;

/// The rowid that the next successful insert into the `todo` table would
/// be assigned; 1 while no row was ever inserted.
pub uninterp spec fn next_rowid(conn: rusqlite::Connection) -> int;

/// Whether the `todo` table exists exactly as `create_todo_table` makes
/// it — an autoincrementing integer primary key `id`, a unique non-null
/// text `title`, an integer `isdone` — with the engine enforcing those
/// constraints.
pub uninterp spec fn schema_ready(conn: rusqlite::Connection) -> bool;

/// The CREATE statement the engine records for the table that
/// `create_todo_table` makes (the engine strips `IF NOT EXISTS` when it
/// records the statement's text).
pub open spec fn todo_schema_text() -> Seq<char> {
    "CREATE TABLE todo (id INTEGER PRIMARY KEY AUTOINCREMENT, title TEXT UNIQUE NOT NULL, isdone INTEGER DEFAULT 0)"@
}

/// What the engine's constraints keep true of a ready table: every id lies
/// below the autoincrement counter, and no two rows share a title.
pub open spec fn table_wf(m: Map<u32, (Seq<char>, u8)>, next: int) -> bool {
    &&& m.dom().finite()
    &&& forall|k: u32| #[trigger] m.dom().contains(k) ==> k < next
    &&& forall|k1: u32, k2: u32|
        m.dom().contains(k1) && m.dom().contains(k2) && k1 != k2 ==> m[k1].0 != m[k2].0
}

/// The contents of a store that holds nothing.
pub open spec fn empty_table() -> Map<u32, (Seq<char>, u8)> {
    Map::empty()
}

/// Some row of `m` carries the title `t`.
pub open spec fn has_title(m: Map<u32, (Seq<char>, u8)>, t: Seq<char>) -> bool {
    exists|k: u32| #[trigger] m.dom().contains(k) && m[k].0 == t
}

/// Some row of `m` other than the one keyed `id` carries the title `t`.
pub open spec fn other_has_title(m: Map<u32, (Seq<char>, u8)>, id: u32, t: Seq<char>) -> bool {
    exists|k: u32| #[trigger] m.dom().contains(k) && k != id && m[k].0 == t
}

/// How a statement failed: a uniqueness-constraint violation, or anything else.
#[derive(Debug, Clone, PartialEq)]
pub enum ExecFailure {
    Constraint,
    Other,
}

/// Relies on `rusqlite::Connection::open`: a connection to the database in
/// the named file, or nothing if it cannot be opened.  What the file holds
/// is unknown, so nothing is claimed of the connection's contents.
#[verifier::external_body]
pub(crate) fn open_path(path: &str) -> (r: Option<rusqlite::Connection>) {
    rusqlite::Connection::open(path).ok()
}

/// Relies on `rusqlite::Connection::open_in_memory`: a fresh in-memory
/// database holds no tables at all, so the `todo` table is absent and no
/// row was ever inserted.
#[verifier::external_body]
pub(crate) fn open_memory() -> (r: Option<rusqlite::Connection>)
    ensures
        r matches Some(c) ==> table_of(c) == empty_table()
            && next_rowid(c) == 1,
{
    rusqlite::Connection::open_in_memory().ok()
}

/// Relies on `rusqlite::Connection::execute` running
/// `CREATE TABLE IF NOT EXISTS`: a table already named `todo`, whatever
/// its shape, is left exactly as it was, and a failed statement changes
/// nothing.  Nothing is claimed of the created table's schema — the engine
/// never compares a pre-existing table against the statement, so that
/// claim belongs to `todo_table_sql`, which reads the schema back.
#[verifier::external_body]
pub(crate) fn create_todo_table(conn: &mut rusqlite::Connection) -> (r: Result<(), ()>)
    ensures
        r is Ok && schema_ready(*old(conn)) ==> schema_ready(*final(conn))
            && table_of(*final(conn)) == table_of(*old(conn))
            && next_rowid(*final(conn)) == next_rowid(*old(conn)),
        r is Ok && table_of(*old(conn)) == empty_table()
            && next_rowid(*old(conn)) == 1 ==> table_of(*final(conn)) == empty_table()
            && next_rowid(*final(conn)) == 1,
        r is Err ==> table_of(*final(conn)) == table_of(*old(conn))
            && next_rowid(*final(conn)) == next_rowid(*old(conn))
            && (schema_ready(*old(conn)) ==> schema_ready(*final(conn))),
{
    let query = "CREATE TABLE IF NOT EXISTS todo (id INTEGER PRIMARY KEY AUTOINCREMENT, title TEXT UNIQUE NOT NULL, isdone INTEGER DEFAULT 0)";
    match conn.execute(query, ()) {
        Ok(_) => Ok(()),
        Err(_) => Err(()),
    }
}

/// Relies on `rusqlite::Connection::query_row` reading `sqlite_master`:
/// hands back the CREATE statement the engine recorded for the `todo`
/// table, or nothing when no such table exists.  The recorded statement
/// determines the table's schema, so a table whose recorded statement is
/// exactly the one `create_todo_table` issues has that schema with its
/// constraints enforced — and under them every id lies below the
/// autoincrement counter and no two rows share a title.
#[verifier::external_body]
pub(crate) fn todo_table_sql(conn: &rusqlite::Connection) -> (r: Result<Option<String>, ()>)
    ensures
        r is Ok && r->Ok_0 is Some ==> r->Ok_0->Some_0@ == todo_schema_text() ==> schema_ready(
            *conn,
        ) && table_wf(table_of(*conn), next_rowid(*conn)),
{
    let res = conn.query_row(
        "SELECT sql FROM sqlite_master WHERE type = 'table' AND name = 'todo'",
        (),
        |row| row.get(0),
    );
    match res {
        Ok(text) => Ok(Some(text)),
        Err(rusqlite::Error::QueryReturnedNoRows) => Ok(None),
        Err(_) => Err(()),
    }
}

/// Relies on `rusqlite::Connection::execute` running the `INSERT` and on
/// `rusqlite::Connection::last_insert_rowid`, and on the engine enforcing
/// the schema: the unique constraint admits the row exactly when no row
/// already carries the title, and the autoincrement counter assigns an id
/// above every id ever assigned.  A failed statement adds no row the map
/// can key and never moves the counter back; that the counter stands still
/// is stated under the counter bound, since past it a refused insert still
/// advances it.  A conflict is not traced back to a row of the map: the
/// clashing row may sit outside the id space.  An assigned rowid beyond
/// the interface's id space is reported as a failure, never handed back
/// truncated.
#[verifier::external_body]
pub(crate) fn exec_insert(conn: &mut rusqlite::Connection, title: &String, is_done: u8) -> (r:
    Result<u32, ExecFailure>)
    ensures
        schema_ready(*old(conn)) ==> schema_ready(*final(conn)) && next_rowid(*final(conn))
            >= next_rowid(*old(conn)),
        r matches Ok(id) ==> schema_ready(*old(conn)) ==> !has_title(table_of(*old(conn)), title@)
            && id == next_rowid(*old(conn))
            && table_of(*final(conn)) == table_of(*old(conn)).insert(id, (title@, is_done))
            && next_rowid(*final(conn)) == next_rowid(*old(conn)) + 1,
        r is Err && schema_ready(*old(conn)) ==> table_of(*final(conn)) == table_of(*old(conn)),
        r is Err && schema_ready(*old(conn)) && next_rowid(*old(conn)) <= u32::MAX as int
            ==> next_rowid(*final(conn)) == next_rowid(*old(conn)),
{
    let res = conn.execute("INSERT INTO todo (title, isdone) VALUES (?1, ?2);", (title, is_done));
    match res {
        Ok(_) => match u32::try_from(conn.last_insert_rowid()) {
            Ok(id) => Ok(id),
            Err(_) => Err(ExecFailure::Other),
        },
        Err(rusqlite::Error::SqliteFailure(sqlerr, _)) => {
            if sqlerr.code == rusqlite::ErrorCode::ConstraintViolation {
                Err(ExecFailure::Constraint)
            } else {
                Err(ExecFailure::Other)
            }
        },
        Err(_) => Err(ExecFailure::Other),
    }
}

/// Relies on `rusqlite::Connection::execute` running the `UPDATE` keyed by
/// the primary key: at most the one matching row changes, the row count
/// says whether it existed, and the unique constraint rejects a title some
/// other row carries.  A failed statement changes nothing, and no update
/// moves the autoincrement counter.  A refused uniqueness check shows that
/// the keyed row was matched; the clashing row is not traced back to the
/// map, since it may sit outside the id space.
#[verifier::external_body]
pub(crate) fn exec_update(
    conn: &mut rusqlite::Connection,
    id: u32,
    title: &String,
    is_done: u8,
) -> (r: Result<usize, ExecFailure>)
    ensures
        schema_ready(*old(conn)) ==> schema_ready(*final(conn)) && next_rowid(*final(conn))
            == next_rowid(*old(conn)),
        r matches Ok(c) ==> schema_ready(*old(conn)) ==> (table_of(*old(conn)).dom().contains(id)
            ==> c == 1 && !other_has_title(table_of(*old(conn)), id, title@)
            && table_of(*final(conn)) == table_of(*old(conn)).insert(id, (title@, is_done)))
            && (!table_of(*old(conn)).dom().contains(id) ==> c == 0 && table_of(*final(conn))
            == table_of(*old(conn))),
        r is Err && schema_ready(*old(conn)) ==> table_of(*final(conn)) == table_of(*old(conn)),
        r matches Err(f) ==> f is Constraint && schema_ready(*old(conn)) ==> table_of(
            *old(conn),
        ).dom().contains(id),
{
    let res = conn.execute(
        "UPDATE todo SET title = ?1, isdone = ?2 WHERE id = ?3;",
        (title, is_done, id),
    );
    match res {
        Ok(rows) => Ok(rows),
        Err(rusqlite::Error::SqliteFailure(sqlerr, _)) => {
            if sqlerr.code == rusqlite::ErrorCode::ConstraintViolation {
                Err(ExecFailure::Constraint)
            } else {
                Err(ExecFailure::Other)
            }
        },
        Err(_) => Err(ExecFailure::Other),
    }
}

/// Relies on `rusqlite::Connection::execute` running the `DELETE` keyed by
/// the primary key: at most the one matching row goes, and the row count
/// says whether it existed.  A failed statement changes nothing, and no
/// delete moves the autoincrement counter back.
#[verifier::external_body]
pub(crate) fn exec_delete(conn: &mut rusqlite::Connection, id: u32) -> (r: Result<usize, ()>)
    ensures
        schema_ready(*old(conn)) ==> schema_ready(*final(conn)) && next_rowid(*final(conn))
            == next_rowid(*old(conn)),
        r matches Ok(c) ==> schema_ready(*old(conn)) ==> (table_of(*old(conn)).dom().contains(id)
            ==> c == 1 && table_of(*final(conn)) == table_of(*old(conn)).remove(id)) && (!table_of(
            *old(conn),
        ).dom().contains(id) ==> c == 0 && table_of(*final(conn)) == table_of(*old(conn))),
        r is Err && schema_ready(*old(conn)) ==> table_of(*final(conn)) == table_of(*old(conn)),
{
    match conn.execute("DELETE FROM todo WHERE id = ?1", (id,)) {
        Ok(rows) => Ok(rows),
        Err(_) => Err(()),
    }
}

/// Relies on `rusqlite::Connection::prepare` and
/// `rusqlite::Statement::query_map` running the `SELECT` over the whole
/// table: under the library's schema a successful read hands back each row
/// of the map exactly once, in the engine's own order — a row the map
/// cannot key, like one the decoders range-check away, surfaces as a
/// failure, never as a skipped or mangled entry.
#[verifier::external_body]
pub(crate) fn query_all(conn: &rusqlite::Connection) -> (r: Result<Vec<(u32, String, u8)>, ()>)
    ensures
        r matches Ok(v) ==> schema_ready(*conn) ==> (forall|i: int|
            0 <= i < v@.len() ==> table_of(*conn).contains_pair(
                (#[trigger] v@[i]).0,
                (v@[i].1@, v@[i].2),
            )) && (forall|i: int, j: int|
            #![trigger v@[i], v@[j]]
            0 <= i < j < v@.len() ==> v@[i].0 != v@[j].0) && (forall|k: u32|
            #[trigger] table_of(*conn).dom().contains(k) ==> exists|i: int|
                0 <= i < v@.len() && (#[trigger] v@[i]).0 == k),
{
    let mut stmt = match conn.prepare("SELECT id, title, isdone FROM todo;") {
        Ok(stmt) => stmt,
        Err(_) => return Err(()),
    };
    let rows = stmt.query_map([], |row| Ok((row.get(0)?, row.get(1)?, row.get(2)?)));
    match rows {
        Ok(it) => it.collect::<Result<Vec<_>, _>>().map_err(|_| ()),
        Err(_) => Err(()),
    }
}

/// Relies on `rusqlite::Connection::query_row` running the `SELECT` keyed
/// by the primary key: under the library's schema the one matching row
/// comes back decoded, or the engine reports that no row matched; a
/// preparation, execution or decoding failure hands back nothing.
#[verifier::external_body]
pub(crate) fn query_by_id(conn: &rusqlite::Connection, id: u32) -> (r: Result<
    Option<(u32, String, u8)>,
    (),
>)
    ensures
        r matches Ok(row) ==> schema_ready(*conn) ==> (row matches Some(t) ==> t.0 == id
            && table_of(*conn).contains_pair(id, (t.1@, t.2))) && (row is None ==> !table_of(
            *conn,
        ).dom().contains(id)),
{
    let res = conn.query_row(
        "SELECT id, title, isdone FROM todo WHERE id = ?1",
        (id,),
        |row| Ok((row.get(0)?, row.get(1)?, row.get(2)?)),
    );
    match res {
        Ok(t) => Ok(Some(t)),
        Err(rusqlite::Error::QueryReturnedNoRows) => Ok(None),
        Err(_) => Err(()),
    }
}

} // verus!
