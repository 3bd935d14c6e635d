//! The local persistent store: two record kinds (recipes and servers) kept
//! in an embedded SQLite database, with idempotent first-use seeding.

use vstd::prelude::*;
use crate::errors::ChefError;

verus! {

/// A stored transformation recipe: the pipeline JSON text, forwarded
/// verbatim, and the output-type tag.
pub struct Recipe {
    pub pipeline: Vec<u8>,
    pub output_type: Vec<u8>,
}

/// A stored server record: the endpoint URI text.
pub struct ServerRecord {
    pub uri: Vec<u8>,
}

#[verifier::external_type_specification]
#[verifier::external_body]
pub struct ExConnection(sqlite::Connection);

/// An open handle to the persistent store.
pub struct Store {
    conn: sqlite::Connection,
}

/// Relies on sqlite::open: it opens the database at the path, creating the
/// file when absent, and fails when the path cannot be created or opened.
#[verifier::external_body]
fn open_connection(path: &str) -> Option<sqlite::Connection> {
    sqlite::open(path).ok()
}

/// Relies on sqlite's Connection::execute: it runs one SQL statement and
/// reports whether it succeeded.
#[verifier::external_body]
fn exec_statement(conn: &sqlite::Connection, sql: &str) -> bool {
    conn.execute(sql).is_ok()
}

/// Relies on sqlite's Connection::prepare, Statement::bind, next,
/// column_type and read, to fetch the single recipes row with the given
/// key. The outer failure is a statement that could not run; the inner
/// `None` is an absent row; each field is present only when its column
/// holds text.
#[verifier::external_body]
fn query_recipe_row(conn: &sqlite::Connection, id: i64) -> Result<
    Option<(Option<Vec<u8>>, Option<Vec<u8>>)>,
    (),
> {
    let mut stmt = conn.prepare("SELECT recipe,return FROM recipes WHERE ID=? LIMIT 1").map_err(
        |_| (),
    )?;
    stmt.bind((1, id)).map_err(|_| ())?;
    if let sqlite::State::Done = stmt.next().map_err(|_| ())? {
        return Ok(None);
    }
    let text = |i: usize| match stmt.column_type(i) {
        Ok(sqlite::Type::String) => stmt.read::<String, _>(i).ok().map(String::into_bytes),
        _ => None,
    };
    Ok(Some((text(0), text(1))))
}

/// Relies on the same sqlite statement calls as the recipes query, for the
/// single servers row with the given key.
#[verifier::external_body]
fn query_server_row(conn: &sqlite::Connection, id: i64) -> Result<Option<Option<Vec<u8>>>, ()> {
    let mut stmt = conn.prepare("SELECT uri FROM servers WHERE ID=? LIMIT 1").map_err(|_| ())?;
    stmt.bind((1, id)).map_err(|_| ())?;
    if let sqlite::State::Done = stmt.next().map_err(|_| ())? {
        return Ok(None);
    }
    let u = match stmt.column_type(0) {
        Ok(sqlite::Type::String) => stmt.read::<String, _>(0).ok().map(String::into_bytes),
        _ => None,
    };
    Ok(Some(u))
}

/// Interprets a fetched recipes row: an absent row is the NotFound failure
/// carrying the requested ID, a row with a missing or non-text field is
/// StoreCorrupt, and a complete row is the Recipe.
pub fn recipe_from_row(id: i64, row: Option<(Option<Vec<u8>>, Option<Vec<u8>>)>) -> (r: Result<
    Recipe,
    ChefError,
>)
    ensures
        row is None ==> (r matches Err(e) && e == ChefError::NotFound(id)),
        row matches Some((p, o)) && (p is None || o is None) ==> (r matches Err(e) && e
            == ChefError::StoreCorrupt),
        row matches Some((Some(p), Some(o))) ==> (r matches Ok(rec) && rec.pipeline@ == p@
            && rec.output_type@ == o@),
{
    match row {
        None => Err(ChefError::NotFound(id)),
        Some((Some(pipeline), Some(output_type))) => Ok(Recipe { pipeline, output_type }),
        Some(_) => Err(ChefError::StoreCorrupt),
    }
}

/// Interprets a fetched servers row the same way, yielding the server's URI.
pub fn server_from_row(id: i64, row: Option<Option<Vec<u8>>>) -> (r: Result<
    ServerRecord,
    ChefError,
>)
    ensures
        row is None ==> (r matches Err(e) && e == ChefError::NotFound(id)),
        row matches Some(u) && u is None ==> (r matches Err(e) && e == ChefError::StoreCorrupt),
        row matches Some(Some(u)) ==> (r matches Ok(rec) && rec.uri@ == u@),
{
    match row {
        None => Err(ChefError::NotFound(id)),
        Some(Some(uri)) => Ok(ServerRecord { uri }),
        Some(None) => Err(ChefError::StoreCorrupt),
    }
}

impl Store {
    /// Runs the idempotent schema-and-seed statements: the two record
    /// collections are created only if absent, and the seed Recipe and
    /// Server rows with ID 1 are inserted with insert-or-ignore semantics,
    /// so running this again never duplicates or overwrites a row.
    pub fn ensure_seeded(&self) -> (r: Result<(), ChefError>)
        ensures
            r matches Err(e) ==> e == ChefError::StoreUnavailable,
    {
        let ok = exec_statement(
            &self.conn,
            "create table if not exists recipes (id integer primary key, name text not null, recipe text not null, return text)",
        );
        if !ok {
            return Err(ChefError::StoreUnavailable);
        }
        let ok = exec_statement(
            &self.conn,
            "create table if not exists servers (id integer primary key, name text not null, uri text not null)",
        );
        if !ok {
            return Err(ChefError::StoreUnavailable);
        }
        let ok = exec_statement(
            &self.conn,
            "INSERT OR IGNORE INTO recipes VALUES (1, 'Base64', '[{\"op\":\"To Base64\",\"args\":[\"A-Za-z0-9+/=\"]}]', 'string')",
        );
        if !ok {
            return Err(ChefError::StoreUnavailable);
        }
        let ok = exec_statement(
            &self.conn,
            "INSERT OR IGNORE INTO servers VALUES (1, 'local', 'http://localhost:3000/bake')",
        );
        if !ok {
            return Err(ChefError::StoreUnavailable);
        }
        Ok(())
    }
}

/// Opens (creating if absent) the store at `path` and makes sure the two
/// record collections exist and hold their seed rows. Repeated
/// initialization against the same path is idempotent, since every
/// statement used is create-if-absent or insert-or-ignore. The only
/// failure is StoreUnavailable, when the path cannot be created or opened
/// or a statement cannot run.
pub fn init_db(path: &str) -> (r: Result<Store, ChefError>)
    ensures
        r matches Err(e) ==> e == ChefError::StoreUnavailable,
{
    match open_connection(path) {
        None => Err(ChefError::StoreUnavailable),
        Some(conn) => {
            let store = Store { conn };
            match store.ensure_seeded() {
                Ok(()) => Ok(store),
                Err(e) => Err(e),
            }
        },
    }
}

/// Fetches the Recipe with the given ID: NotFound when no row matches,
/// StoreCorrupt when the row is present but a required field is absent or
/// not text, StoreUnavailable when the lookup statement cannot run.
pub fn get_recipe(store: &Store, id: i64) -> (r: Result<Recipe, ChefError>)
    ensures
        r matches Err(e) ==> (e == ChefError::NotFound(id) || e == ChefError::StoreCorrupt || e
            == ChefError::StoreUnavailable),
{
    match query_recipe_row(&store.conn, id) {
        Err(()) => Err(ChefError::StoreUnavailable),
        Ok(row) => recipe_from_row(id, row),
    }
}

/// Fetches the Server with the given ID, under the same contract as the
/// recipe lookup.
pub fn get_server(store: &Store, id: i64) -> (r: Result<ServerRecord, ChefError>)
    ensures
        r matches Err(e) ==> (e == ChefError::NotFound(id) || e == ChefError::StoreCorrupt || e
            == ChefError::StoreUnavailable),
{
    match query_server_row(&store.conn, id) {
        Err(()) => Err(ChefError::StoreUnavailable),
        Ok(row) => server_from_row(id, row),
    }
}

} // verus!
