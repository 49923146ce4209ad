//! The storage gateway: one SQLite table behind a `rusqlite::Connection`.
//!
//! Contracts speak of the table through `inventory_rows`, a map from id to
//! entry, and only of a store that its connection owns (`owns_store`): a
//! database that no other connection reaches, such as the one SQLite opens in
//! memory. Of a database on disk, which other connections and programs can
//! change at any time, they say only what holds whatever is in it. What each
//! statement does to an owned table is SQLite's to guarantee and is taken on
//! trust, one small function per statement; everything built on top is
//! proved from those.

use crate::book::{entry_of, line_of, render_book, Book, BookView, Entry};
use rusqlite::Connection;
use vstd::prelude::*;

verus! {

/// `rusqlite::Connection`, opaque to the verifier.
#[verifier::external_type_specification]
#[verifier::external_body]
pub struct ExConnection(rusqlite::Connection);

/// `rusqlite::Error`, opaque to the verifier.
#[verifier::external_type_specification]
#[verifier::external_body]
pub struct ExError(rusqlite::Error);

/// Whether `conn` owns its store: the database behind it is private to this
/// connection, and holds nothing but what was put there through it. SQLite
/// documents this of the database that it opens in memory under
/// `MEMORY_PATH`.
pub uninterp spec fn owns_store(conn: Connection) -> bool;

/// The rows of the table `inventory` in the database behind `conn`, each id
/// with the entry stored under it. A database without that table has no rows.
///
/// Contracts use this name only of a connection that owns its store: there
/// the rows change through this connection alone.
pub uninterp spec fn inventory_rows(conn: Connection) -> Map<int, Entry>;

/// The row id that SQLite reports for the last successful insert on `conn`.
pub uninterp spec fn last_inserted_id(conn: Connection) -> int;

/// The path that `conn` was opened on: a fact of the connection's own making,
/// whatever the database behind it holds.
pub uninterp spec fn opened_path(conn: Connection) -> Seq<char>;

/// Whether `SCHEMA_SQL` has run through `conn` and succeeded: a fact of the
/// connection's own past, whatever other connections do to the database.
pub uninterp spec fn schema_declared(conn: Connection) -> bool;

/// Whether the database behind `conn` has a table under the name
/// `inventory`. A view of that name counts: SQLite lets it stand where a
/// table is named.
pub uninterp spec fn has_inventory_table(conn: Connection) -> bool;

/// The wording that `rusqlite::Error` gives `error` when it is displayed.
pub uninterp spec fn error_wording(error: rusqlite::Error) -> Seq<char>;

/// The text that `rusqlite::Error` gives `error` when it is written out in
/// full for a developer, variant and fields.
pub uninterp spec fn error_detail(error: rusqlite::Error) -> Seq<char>;

/// The path under which SQLite opens a private, initially empty database in
/// memory.
pub const MEMORY_PATH: &'static str = ":memory:";

/// Declares the table unless it is there already.
pub const SCHEMA_SQL: &'static str =
    "CREATE TABLE IF NOT EXISTS inventory (id INTEGER PRIMARY KEY, title TEXT NOT NULL, author TEXT NOT NULL, year INTEGER NOT NULL, genre TEXT NOT NULL)";

/// Adds one row; the engine picks the id.
pub const INSERT_SQL: &'static str =
    "INSERT INTO inventory (title, author, year, genre) VALUES (?1, ?2, ?3, ?4)";

/// Reads every row.
pub const SELECT_SQL: &'static str = "SELECT id, title, author, year, genre FROM inventory";

/// Overwrites the four fields of the row with the given id.
pub const UPDATE_SQL: &'static str =
    "UPDATE inventory SET title = ?2, author = ?3, year = ?4, genre = ?5 WHERE id = ?1";

/// Deletes the row with the given id.
pub const DELETE_SQL: &'static str = "DELETE FROM inventory WHERE id = ?";

/// A failure reported by the storage engine.
#[derive(Debug)]
pub struct StorageError {
    /// The engine's own wording.
    pub message: String,
    /// The engine's error written out in full, variant and fields.
    pub detail: String,
}

/// Whether `failure` is the library's error for `error`.
pub open spec fn reports(failure: StorageError, error: rusqlite::Error) -> bool {
    failure.message@ == error_wording(error) && failure.detail@ == error_detail(error)
}

/// Whether `failure` is the library's error for some error of the engine: the
/// library has no failure of its own making.
pub open spec fn is_engine_failure(failure: StorageError) -> bool {
    exists|error: rusqlite::Error| #[trigger] reports(failure, error)
}

/// Whether `id` is the id that SQLite gives a row inserted into `rows`
/// without one: an id that is free; 1 where the table is empty; and otherwise
/// one more than the largest in use, unless that is the largest there is.
pub open spec fn is_assigned_id(rows: Map<int, Entry>, id: int) -> bool {
    &&& !rows.contains_key(id)
    &&& (forall|other: int| !rows.contains_key(other)) ==> id == 1
    &&& (exists|other: int| rows.contains_key(other)) && !rows.contains_key(i64::MAX as int)
        ==> rows.contains_key(id - 1) && forall|other: int|
        rows.contains_key(other) ==> other < id
}

/// The table after a successful insert of `entry` under `id`.
pub open spec fn after_add(rows: Map<int, Entry>, id: int, entry: Entry) -> Map<int, Entry> {
    rows.insert(id, entry)
}

/// The table after a successful update of `id`: the row is replaced where it
/// exists, and nothing happens where it does not.
pub open spec fn after_update(rows: Map<int, Entry>, id: int, entry: Entry) -> Map<int, Entry> {
    if rows.contains_key(id) {
        rows.insert(id, entry)
    } else {
        rows
    }
}

/// The table after a successful delete of `id`.
pub open spec fn after_remove(rows: Map<int, Entry>, id: int) -> Map<int, Entry> {
    rows.remove(id)
}

/// Every book of `books` is a row of `rows`, and no id comes twice.
pub open spec fn shows_rows_of(rows: Map<int, Entry>, books: Seq<BookView>) -> bool {
    &&& forall|i: int|
        0 <= i < books.len() ==> rows.contains_key(#[trigger] books[i].id) && rows[books[i].id]
            == books[i].entry
    &&& forall|i: int, j: int|
        0 <= i < j < books.len() ==> #[trigger] books[i].id != #[trigger] books[j].id
}

/// `books` shows `rows` in some order: every book is a row, no id comes
/// twice, and no row is missing.
pub open spec fn is_listing(rows: Map<int, Entry>, books: Seq<BookView>) -> bool {
    &&& shows_rows_of(rows, books)
    &&& forall|id: int| #[trigger]
        rows.contains_key(id) ==> exists|i: int| 0 <= i < books.len() && #[trigger] books[i].id == id
}

/// The views of a sequence of books, in order.
pub open spec fn views(books: Seq<Book>) -> Seq<BookView> {
    Seq::new(books.len(), |i: int| books[i]@)
}

/// No row failed to be read.
pub open spec fn all_read(items: Seq<Result<Book, rusqlite::Error>>) -> bool {
    forall|i: int| 0 <= i < items.len() ==> (#[trigger] items[i]) is Ok
}

/// What a `SELECT_SQL` query over `rows` may hand back: each row that was read
/// is a row of the table, none is read twice, and where every one was read,
/// none is missing. A table has finitely many rows.
pub open spec fn fetched(rows: Map<int, Entry>, items: Seq<Result<Book, rusqlite::Error>>) -> bool {
    &&& rows.dom().finite()
    &&& forall|i: int|
        0 <= i < items.len() ==> ((#[trigger] items[i]) matches Ok(book) ==> rows.contains_key(
            book@.id,
        ) && rows[book@.id] == book@.entry)
    &&& forall|i: int, j: int|
        0 <= i < j < items.len() && (#[trigger] items[i]) is Ok && (#[trigger] items[j]) is Ok
            ==> items[i]->Ok_0@.id != items[j]->Ok_0@.id
    &&& all_read(items) ==> forall|id: int| #[trigger]
        rows.contains_key(id) ==> exists|i: int|
            0 <= i < items.len() && (#[trigger] items[i])->Ok_0@.id == id
}

/// The books that a query gave before it failed, and the failure if there was
/// one.
#[derive(Debug)]
pub struct Listing {
    pub books: Vec<Book>,
    pub failure: Option<StorageError>,
}

/// The lines that show the inventory, and the listing that they were made
/// from.
#[derive(Debug)]
pub struct Report {
    pub lines: Vec<String>,
    pub listing: Listing,
}

/// Whether `lines` shows `books`, one line for each, in order.
pub open spec fn shows_books(lines: Seq<String>, books: Seq<Book>) -> bool {
    &&& lines.len() == books.len()
    &&& forall|i: int| 0 <= i < lines.len() ==> (#[trigger] lines[i])@ == line_of(books[i]@)
}

/// Calls `rusqlite::Connection::open`, which opens the database file at
/// `path` and creates it where there is none.
///
/// Trusted: the connection that comes back was opened on `path`. Under
/// `MEMORY_PATH` SQLite opens a new database in memory that is private to
/// this connection; it has no tables and so no rows. Of what a database
/// under any other path holds, nothing is claimed.
#[verifier::external_body]
fn open_database(path: &str) -> (r: Result<Connection, rusqlite::Error>)
    ensures
        r matches Ok(conn) ==> opened_path(conn) == path@,
        path@ == MEMORY_PATH@ ==> (r matches Ok(conn) ==> owns_store(conn) && inventory_rows(conn)
            == Map::<int, Entry>::empty()),
{
    Connection::open(path)
}

/// Runs `SCHEMA_SQL` through `rusqlite::Connection::execute`.
///
/// Trusted, of every store: where the call succeeds, the statement has run
/// through this connection; and the connection is still the one opened on
/// its path. Of a store that the connection owns: `CREATE TABLE IF NOT
/// EXISTS` leaves an existing table as it is and makes a missing one without
/// rows, so the rows are the same afterwards, whether it succeeds or fails;
/// and where it succeeds, the table is there. The statement does not change
/// who owns the store.
#[verifier::external_body]
fn execute_schema(conn: &mut Connection, sql: &str) -> (r: Result<usize, rusqlite::Error>)
    requires
        sql@ == SCHEMA_SQL@,
    ensures
        opened_path(*final(conn)) == opened_path(*old(conn)),
        r is Ok ==> schema_declared(*final(conn)),
        owns_store(*final(conn)) == owns_store(*old(conn)),
        owns_store(*old(conn)) ==> inventory_rows(*final(conn)) == inventory_rows(*old(conn)),
        owns_store(*old(conn)) && r is Ok ==> has_inventory_table(*final(conn)),
{
    conn.execute(sql, ())
}

/// Runs `INSERT_SQL` through `rusqlite::Connection::execute`, with the four
/// values bound in order.
///
/// Trusted, of a store that the connection owns: a successful insert adds
/// exactly one row, holding the bound values, under the id that SQLite
/// assigns (`is_assigned_id`), and that id is then the connection's last
/// inserted row id. A failed statement changes no row. Either way the table
/// has finitely many rows, and the statement does not change who owns the
/// store.
#[verifier::external_body]
fn execute_insert(
    conn: &mut Connection,
    sql: &str,
    title: &str,
    author: &str,
    year: u32,
    genre: &str,
) -> (r: Result<usize, rusqlite::Error>)
    requires
        sql@ == INSERT_SQL@,
    ensures
        owns_store(*final(conn)) == owns_store(*old(conn)),
        owns_store(*old(conn)) ==> inventory_rows(*final(conn)).dom().finite(),
        owns_store(*old(conn)) && r is Ok ==> is_assigned_id(
            inventory_rows(*old(conn)),
            last_inserted_id(*final(conn)),
        ) && inventory_rows(*final(conn)) == after_add(
            inventory_rows(*old(conn)),
            last_inserted_id(*final(conn)),
            entry_of(title@, author@, year as int, genre@),
        ),
        owns_store(*old(conn)) && r is Err ==> inventory_rows(*final(conn)) == inventory_rows(
            *old(conn),
        ),
{
    conn.execute(sql, (title, author, year, genre))
}

/// Runs `UPDATE_SQL` through `rusqlite::Connection::execute`, with the id
/// bound first and the four values after it.
///
/// Trusted, of a store that the connection owns: a successful update replaces
/// the entry of the row with that id and touches no other row; where no row
/// has the id it succeeds and changes nothing. A failed statement changes no
/// row. Either way the table has finitely many rows, and the statement does
/// not change who owns the store.
#[verifier::external_body]
fn execute_update(
    conn: &mut Connection,
    sql: &str,
    id: i32,
    title: &str,
    author: &str,
    year: u32,
    genre: &str,
) -> (r: Result<usize, rusqlite::Error>)
    requires
        sql@ == UPDATE_SQL@,
    ensures
        owns_store(*final(conn)) == owns_store(*old(conn)),
        owns_store(*old(conn)) ==> inventory_rows(*final(conn)).dom().finite(),
        owns_store(*old(conn)) && r is Ok ==> inventory_rows(*final(conn)) == after_update(
            inventory_rows(*old(conn)),
            id as int,
            entry_of(title@, author@, year as int, genre@),
        ),
        owns_store(*old(conn)) && r is Err ==> inventory_rows(*final(conn)) == inventory_rows(
            *old(conn),
        ),
{
    conn.execute(sql, (id, title, author, year, genre))
}

/// Runs `DELETE_SQL` through `rusqlite::Connection::execute`, with the id
/// bound.
///
/// Trusted, of a store that the connection owns: a successful delete removes
/// the row with that id, if there is one, and touches no other row. A failed
/// statement changes no row. Either way the table has finitely many rows, and
/// the statement does not change who owns the store.
#[verifier::external_body]
fn execute_delete(conn: &mut Connection, sql: &str, id: i32) -> (r: Result<
    usize,
    rusqlite::Error,
>)
    requires
        sql@ == DELETE_SQL@,
    ensures
        owns_store(*final(conn)) == owns_store(*old(conn)),
        owns_store(*old(conn)) ==> inventory_rows(*final(conn)).dom().finite(),
        owns_store(*old(conn)) && r is Ok ==> inventory_rows(*final(conn)) == after_remove(
            inventory_rows(*old(conn)),
            id as int,
        ),
        owns_store(*old(conn)) && r is Err ==> inventory_rows(*final(conn)) == inventory_rows(
            *old(conn),
        ),
{
    conn.execute(sql, (id,))
}

/// Calls `rusqlite::Connection::last_insert_rowid`.
#[verifier::external_body]
fn last_insert_rowid(conn: &Connection) -> (id: i64)
    ensures
        id as int == last_inserted_id(*conn),
{
    conn.last_insert_rowid()
}

/// Prepares `SELECT_SQL` with `rusqlite::Connection::prepare`, runs it with
/// `rusqlite::Statement::query_map` and reads the five columns of each row
/// with `rusqlite::Row::get`. The outer error is a statement that could not be
/// prepared or started; an inner one is a row that could not be stepped to or
/// whose columns did not convert.
///
/// Trusted, of a store that the connection owns: the query visits each row
/// of the table once, so what was read agrees with the table as `fetched`
/// says.
#[verifier::external_body]
fn query_books(conn: &Connection, sql: &str) -> (r: Result<
    Vec<Result<Book, rusqlite::Error>>,
    rusqlite::Error,
>)
    requires
        sql@ == SELECT_SQL@,
    ensures
        owns_store(*conn) ==> (r matches Ok(items) ==> fetched(inventory_rows(*conn), items@)),
{
    let mut statement = conn.prepare(sql)?;
    let rows = statement.query_map((), |row| {
        let (id, title, author) = (row.get(0)?, row.get(1)?, row.get(2)?);
        let (year, genre) = (row.get(3)?, row.get(4)?);
        Ok(Book { id, title, author, year, genre })
    })?;
    Ok(rows.collect())
}

/// Displays `error` through the `Display` impl of `rusqlite::Error`.
///
/// Trusted: the text depends on the error alone, and `error_wording` is the
/// name for it. What the text says is not claimed.
#[verifier::external_body]
fn error_text(error: &rusqlite::Error) -> (text: String)
    ensures
        text@ == error_wording(*error),
{
    error.to_string()
}

/// Writes `error` out through the `Debug` impl of `rusqlite::Error`.
///
/// Trusted: the text depends on the error alone, and `error_detail` is the
/// name for it. What the text says is not claimed.
#[verifier::external_body]
fn error_debug_text(error: &rusqlite::Error) -> (text: String)
    ensures
        text@ == error_detail(*error),
{
    format!("{:?}", error)
}

/// The library's error for a failure of the engine: it carries the engine's
/// wording and the error written out in full.
fn storage_error(error: &rusqlite::Error) -> (failure: StorageError)
    ensures
        reports(failure, *error),
{
    StorageError { message: error_text(error), detail: error_debug_text(error) }
}

/// What the outcome of a call into the engine means to the caller: a success
/// is handed on as it is, and a failure becomes the library's error for it.
pub fn settle<T>(outcome: Result<T, rusqlite::Error>) -> (r: Result<T, StorageError>)
    ensures
        match outcome {
            Ok(value) => r == Ok::<T, StorageError>(value),
            Err(error) => r matches Err(failure) && reports(failure, error),
        },
{
    match outcome {
        Ok(value) => Ok(value),
        Err(error) => Err(storage_error(&error)),
    }
}

/// Opens the database at `path`, creating the file where there is none, and
/// makes sure that the inventory table exists.
///
/// Whether this succeeds is the engine's to decide, and a failure is the
/// engine's. The connection that comes back was opened on `path`, and the
/// statement that declares the table has run through it. A store opened
/// under `MEMORY_PATH` is owned by its connection: the table is there and
/// has no rows. Of what a database on disk holds nothing is known: other
/// connections and programs reach it.
pub fn initialize(path: &str) -> (r: Result<Connection, StorageError>)
    ensures
        match r {
            Ok(conn) => {
                &&& opened_path(conn) == path@
                &&& schema_declared(conn)
                &&& path@ == MEMORY_PATH@ ==> {
                    &&& owns_store(conn)
                    &&& has_inventory_table(conn)
                    &&& inventory_rows(conn) == Map::<int, Entry>::empty()
                }
            },
            Err(failure) => is_engine_failure(failure),
        },
{
    match settle(open_database(path)) {
        Ok(mut conn) => match settle(execute_schema(&mut conn, SCHEMA_SQL)) {
            Ok(_) => Ok(conn),
            Err(failure) => Err(failure),
        },
        Err(failure) => Err(failure),
    }
}

/// Keeps the rows up to the first one that could not be read, and reports
/// that one as the failure.
pub fn read_rows(items: &Vec<Result<Book, rusqlite::Error>>) -> (listing: Listing)
    ensures
        listing.books@.len() <= items@.len(),
        forall|i: int|
            0 <= i < listing.books@.len() ==> (#[trigger] items@[i]) is Ok && listing.books@[i]@
                == items@[i]->Ok_0@,
        listing.books@.len() < items@.len() ==> items@[listing.books@.len() as int] is Err,
        listing.failure is Some <==> listing.books@.len() < items@.len(),
        listing.failure matches Some(failure) ==> reports(
            failure,
            items@[listing.books@.len() as int]->Err_0,
        ),
{
    let mut books: Vec<Book> = Vec::new();
    let mut i: usize = 0;
    while i < items.len()
        invariant
            i <= items@.len(),
            books@.len() == i,
            forall|k: int|
                0 <= k < i ==> (#[trigger] items@[k]) is Ok && books@[k]@ == items@[k]->Ok_0@,
        decreases items@.len() - i,
    {
        match &items[i] {
            Ok(book) => {
                books.push(book.clone());
            },
            Err(error) => {
                return Listing { books, failure: Some(storage_error(error)) };
            },
        }
        i += 1;
    }
    Listing { books, failure: None }
}

/// Reads the records of the table, in the order in which the store hands
/// them out.
///
/// A failure is the engine's. Of a store that the connection owns: without a
/// failure the books are the whole table, each row once; with one, they are
/// the rows read before it, rows of the table still, each once.
pub fn list_books(conn: &Connection) -> (listing: Listing)
    ensures
        listing.failure matches Some(failure) ==> is_engine_failure(failure),
        owns_store(*conn) ==> shows_rows_of(inventory_rows(*conn), views(listing.books@)),
        owns_store(*conn) && listing.failure is None ==> is_listing(
            inventory_rows(*conn),
            views(listing.books@),
        ),
{
    match query_books(conn, SELECT_SQL) {
        Ok(items) => {
            let listing = read_rows(&items);
            proof {
                if listing.failure is Some {
                    assert(reports(
                        listing.failure->Some_0,
                        items@[listing.books@.len() as int]->Err_0,
                    ));
                }
                if owns_store(*conn) {
                    let rows = inventory_rows(*conn);
                    let shown = views(listing.books@);
                    assert forall|i: int| 0 <= i < shown.len() implies rows.contains_key(
                        #[trigger] shown[i].id,
                    ) && rows[shown[i].id] == shown[i].entry by {
                        assert(items@[i] is Ok);
                    }
                    assert forall|i: int, j: int| 0 <= i < j < shown.len() implies #[trigger] shown[i].id
                        != #[trigger] shown[j].id by {
                        assert(items@[i] is Ok && items@[j] is Ok);
                    }
                    if listing.failure is None {
                        assert forall|id: int| #[trigger] rows.contains_key(id) implies exists|
                            i: int,
                        | 0 <= i < shown.len() && #[trigger] shown[i].id == id by {
                            let i = choose|i: int|
                                0 <= i < items@.len() && (#[trigger] items@[i])->Ok_0@.id == id;
                            assert(shown[i].id == id);
                        }
                    }
                }
            }
            listing
        },
        Err(error) => {
            let failure = storage_error(&error);
            assert(reports(failure, error));
            Listing { books: Vec::new(), failure: Some(failure) }
        },
    }
}

/// One line for each book, in order.
pub fn render_books(books: &Vec<Book>) -> (lines: Vec<String>)
    ensures
        shows_books(lines@, books@),
{
    let mut lines: Vec<String> = Vec::new();
    let mut i: usize = 0;
    while i < books.len()
        invariant
            i <= books@.len(),
            lines@.len() == i,
            forall|k: int| 0 <= k < i ==> (#[trigger] lines@[k])@ == line_of(books@[k]@),
        decreases books@.len() - i,
    {
        lines.push(render_book(&books[i]));
        i += 1;
    }
    lines
}

/// Reads the table and makes the lines that show it, one for each record.
///
/// The listing is the one that `list_books` gives. Where it ends in a
/// failure, the lines show the records read before it.
pub fn show_inventory(conn: &Connection) -> (report: Report)
    ensures
        shows_books(report.lines@, report.listing.books@),
        report.listing.failure matches Some(failure) ==> is_engine_failure(failure),
        owns_store(*conn) ==> shows_rows_of(
            inventory_rows(*conn),
            views(report.listing.books@),
        ),
        owns_store(*conn) && report.listing.failure is None ==> is_listing(
            inventory_rows(*conn),
            views(report.listing.books@),
        ),
{
    let listing = list_books(conn);
    let lines = render_books(&listing.books);
    Report { lines, listing }
}

/// Adds a record with the given fields and returns the id that the store
/// assigned to it: the connection's last inserted row id.
///
/// A failure is the engine's. Of a store that the connection owns: on
/// success the table has gained exactly that record, under the id that SQLite
/// assigns, 1 in an empty table and else one more than the largest; on
/// failure the table is as it was.
pub fn add_book(conn: &mut Connection, title: &str, author: &str, year: u32, genre: &str) -> (r:
    Result<i64, StorageError>)
    ensures
        owns_store(*final(conn)) == owns_store(*old(conn)),
        owns_store(*old(conn)) ==> inventory_rows(*final(conn)).dom().finite(),
        match r {
            Ok(id) => {
                &&& id as int == last_inserted_id(*final(conn))
                &&& owns_store(*old(conn)) ==> is_assigned_id(
                    inventory_rows(*old(conn)),
                    id as int,
                ) && inventory_rows(*final(conn)) == after_add(
                    inventory_rows(*old(conn)),
                    id as int,
                    entry_of(title@, author@, year as int, genre@),
                )
            },
            Err(failure) => {
                &&& is_engine_failure(failure)
                &&& owns_store(*old(conn)) ==> inventory_rows(*final(conn)) == inventory_rows(
                    *old(conn),
                )
            },
        },
{
    let outcome = execute_insert(conn, INSERT_SQL, title, author, year, genre);
    match settle(outcome) {
        Ok(_) => Ok(last_insert_rowid(conn)),
        Err(failure) => {
            assert(reports(failure, outcome->Err_0));
            Err(failure)
        },
    }
}

/// Overwrites the four fields of the record with the given id.
///
/// A failure is the engine's. Of a store that the connection owns: where no
/// record has that id this changes nothing, and on failure the table is as
/// it was.
pub fn edit_book(
    conn: &mut Connection,
    id: i32,
    new_title: &str,
    new_author: &str,
    new_year: u32,
    new_genre: &str,
) -> (r: Result<(), StorageError>)
    ensures
        owns_store(*final(conn)) == owns_store(*old(conn)),
        owns_store(*old(conn)) ==> inventory_rows(*final(conn)).dom().finite(),
        match r {
            Ok(_) => owns_store(*old(conn)) ==> inventory_rows(*final(conn)) == after_update(
                inventory_rows(*old(conn)),
                id as int,
                entry_of(new_title@, new_author@, new_year as int, new_genre@),
            ),
            Err(failure) => {
                &&& is_engine_failure(failure)
                &&& owns_store(*old(conn)) ==> inventory_rows(*final(conn)) == inventory_rows(
                    *old(conn),
                )
            },
        },
{
    let outcome = execute_update(conn, UPDATE_SQL, id, new_title, new_author, new_year, new_genre);
    match settle(outcome) {
        Ok(_) => Ok(()),
        Err(failure) => {
            assert(reports(failure, outcome->Err_0));
            Err(failure)
        },
    }
}

/// Deletes the record with the given id.
///
/// A failure is the engine's. Of a store that the connection owns: where no
/// record has that id this changes nothing, and on failure the table is as
/// it was.
pub fn remove_book(conn: &mut Connection, id: i32) -> (r: Result<(), StorageError>)
    ensures
        owns_store(*final(conn)) == owns_store(*old(conn)),
        owns_store(*old(conn)) ==> inventory_rows(*final(conn)).dom().finite(),
        match r {
            Ok(_) => owns_store(*old(conn)) ==> inventory_rows(*final(conn)) == after_remove(
                inventory_rows(*old(conn)),
                id as int,
            ),
            Err(failure) => {
                &&& is_engine_failure(failure)
                &&& owns_store(*old(conn)) ==> inventory_rows(*final(conn)) == inventory_rows(
                    *old(conn),
                )
            },
        },
{
    let outcome = execute_delete(conn, DELETE_SQL, id);
    match settle(outcome) {
        Ok(_) => Ok(()),
        Err(failure) => {
            assert(reports(failure, outcome->Err_0));
            Err(failure)
        },
    }
}

} // verus!
