//! The catalog kept in a SQLite database: one table of records with a unique
//! index on name and version, so that the database itself refuses a second
//! record with the same key.
use vstd::prelude::*;

use crate::catalog::{record_with_key, records_named, rows_view};
use crate::error::ErrType;
use crate::model::{is_valid_name, valid_name, PkgMeta, PkgMetaRepo};

verus! {

#[verifier::external_type_specification]
#[verifier::external_body]
pub struct ExConnection(rusqlite::Connection);

/// Creates the table and its unique index where they do not exist yet, so
/// that running it again changes nothing.
pub const UP_MIGRATION: &'static str = "
    BEGIN;
    CREATE TABLE IF NOT EXISTS packages (
    id INTEGER NOT NULL PRIMARY KEY,
    name TEXT NOT NULL,
    version TEXT NOT NULL,
    location TEXT NOT NULL
    );
    CREATE UNIQUE INDEX IF NOT EXISTS idx_name_version ON packages (name, version);
    COMMIT;
    ";

/// Removes the table and its index.
pub const DOWN_MIGRATION: &'static str = "
    BEGIN;
    DROP INDEX IF EXISTS idx_name_version;
    DROP TABLE IF EXISTS packages;
    COMMIT;
    ";

/// Adds a record; the unique index refuses a taken name and version.
pub const INSERT: &'static str = "INSERT INTO packages (name, version, location) VALUES (?1, ?2, ?3)";

/// Removes the record equal in name, version and location.
pub const DELETE: &'static str =
    "DELETE FROM packages WHERE name = ?1 AND version = ?2 AND location = ?3";

/// Points the record with a name and version at a new location.
pub const UPDATE: &'static str =
    "UPDATE packages SET location = ?3 WHERE name = ?1 AND version = ?2";

/// The records with a name and version, oldest first.
pub const SELECT_KEY: &'static str =
    "SELECT name, version, location FROM packages WHERE name = ?1 AND version = ?2 ORDER BY id";

/// All records, oldest first.
pub const SELECT_ALL: &'static str = "SELECT name, version, location FROM packages ORDER BY id";

/// The records with a name, oldest first.
pub const SELECT_NAMED: &'static str =
    "SELECT name, version, location FROM packages WHERE name = ?1 ORDER BY id";

/// A failed database operation, as the catalog tells them apart.
#[derive(Debug, Clone)]
pub enum SqlFailure {
    /// A constraint refused the statement: for an insert, the key is taken.
    Constraint(String),
    /// Any other failure, with its description.
    Other(String),
}

/// A failed schema migration.
#[derive(Debug)]
pub enum DBError<T> {
    MigrationFailed(T),
}

/// Relies on `rusqlite::Connection::open_with_flags` to open the database at
/// `path` for reading and writing, creating it where it is missing; a failure
/// comes back with rusqlite's description of it.
#[verifier::external_body]
fn open_connection(path: &str) -> (r: Result<rusqlite::Connection, SqlFailure>) {
    rusqlite::Connection::open_with_flags(
        path,
        rusqlite::OpenFlags::SQLITE_OPEN_READ_WRITE | rusqlite::OpenFlags::SQLITE_OPEN_CREATE,
    ).map_err(|e| SqlFailure::Other(e.to_string()))
}

/// Relies on `rusqlite::Connection::execute_batch` to run the statements of
/// `sql`; a failure comes back with rusqlite's description of it.
#[verifier::external_body]
fn execute_batch(conn: &rusqlite::Connection, sql: &str) -> (r: Result<(), SqlFailure>) {
    conn.execute_batch(sql).map_err(|e| SqlFailure::Other(e.to_string()))
}

/// Relies on `rusqlite::Connection::execute` to run one statement with
/// `params` bound in order; it returns the number of rows changed. A failure
/// whose SQLite code is `ConstraintViolation` comes back as `Constraint`, any
/// other as `Other`, each with rusqlite's description of it.
#[verifier::external_body]
fn execute(conn: &rusqlite::Connection, sql: &str, params: &Vec<String>) -> (r: Result<
    usize,
    SqlFailure,
>) {
    match conn.execute(sql, rusqlite::params_from_iter(params.iter())) {
        Ok(n) => Ok(n),
        Err(e) => match e.sqlite_error_code() {
            Some(rusqlite::ErrorCode::ConstraintViolation) => Err(SqlFailure::Constraint(e.to_string())),
            _ => Err(SqlFailure::Other(e.to_string())),
        },
    }
}

/// Relies on `rusqlite::Connection::prepare` and `Statement::query_map` to run
/// a query with `params` bound in order, giving the first three columns of each
/// row as text, in the order the database returns them; a failure comes back
/// with rusqlite's description of it.
#[verifier::external_body]
fn query_rows(conn: &rusqlite::Connection, sql: &str, params: &Vec<String>) -> (r: Result<
    Vec<(String, String, String)>,
    SqlFailure,
>) {
    conn.prepare(sql)
        .and_then(|mut stmt| {
            stmt.query_map(rusqlite::params_from_iter(params.iter()), |row| {
                Ok((row.get(0)?, row.get(1)?, row.get(2)?))
            })?.collect()
        })
        .map_err(|e| SqlFailure::Other(e.to_string()))
}

/// The texts of a list of bound values.
pub open spec fn texts(params: Seq<String>) -> Seq<Seq<char>> {
    params.map_values(|s: String| s@)
}

/// The values bound to `INSERT`, `DELETE` and `UPDATE`: name, version and
/// location, in that order.
pub fn row_params(meta: &PkgMeta) -> (r: Vec<String>)
    ensures
        texts(r@) == seq![meta.name@, meta.version@, meta.location@],
{
    let r = vec![meta.name.clone(), meta.version.clone(), meta.location.clone()];
    assert(texts(r@) =~= seq![meta.name@, meta.version@, meta.location@]);
    r
}

/// The values bound to `SELECT_KEY`: name, then version.
pub fn key_params(name: &str, ver: &str) -> (r: Vec<String>)
    ensures
        texts(r@) == seq![name@, ver@],
{
    let r = vec![name.to_string(), ver.to_string()];
    assert(texts(r@) =~= seq![name@, ver@]);
    r
}

/// The value bound to `SELECT_NAMED`: the name.
pub fn name_params(name: &str) -> (r: Vec<String>)
    ensures
        texts(r@) == seq![name@],
{
    let r = vec![name.to_string()];
    assert(texts(r@) =~= seq![name@]);
    r
}

/// The text of a failure.
pub open spec fn failure_view(f: SqlFailure) -> Seq<char> {
    match f {
        SqlFailure::Constraint(t) => t@,
        SqlFailure::Other(t) => t@,
    }
}

/// The description of a failure.
pub fn failure_text(f: &SqlFailure) -> (r: String)
    ensures
        r@ == failure_view(*f),
{
    match f {
        SqlFailure::Constraint(t) => t.clone(),
        SqlFailure::Other(t) => t.clone(),
    }
}

/// The message of every error of kind `DB`.
pub const DB_FAILURE: &'static str = "Error during sqlite operation";

/// A database failure as a catalog error of kind `DB`, its description kept
/// as the cause.
pub fn db_error(f: SqlFailure) -> (r: crate::error::Error)
    ensures
        r.kind == ErrType::DB,
        r.message is Some,
        r.message->Some_0@ == DB_FAILURE@,
        r.source is Some,
        r.source->Some_0@ == failure_view(f),
{
    let text = failure_text(&f);
    crate::error::Error { kind: ErrType::DB, source: Some(text), message: Some(DB_FAILURE.to_string()) }
}

/// The catalog's answer to an insert: a constraint violation is a `Conflict`,
/// any other failure a `DB` error.
pub fn insert_outcome(r: Result<usize, SqlFailure>) -> (out: Result<(), crate::error::Error>)
    ensures
        out is Ok <==> r is Ok,
        r matches Err(SqlFailure::Constraint(_)) ==> out->Err_0.kind == ErrType::Conflict,
        r matches Err(SqlFailure::Other(_)) ==> out->Err_0.kind == ErrType::DB,
        r matches Err(f) ==> out->Err_0.source is Some && out->Err_0.source->Some_0@
            == failure_view(f),
{
    match r {
        Ok(_) => Ok(()),
        Err(SqlFailure::Constraint(t)) => Err(
            crate::error::Error {
                kind: ErrType::Conflict,
                source: Some(t),
                message: Some("a package with this name and version exists".to_string()),
            },
        ),
        Err(f) => Err(db_error(f)),
    }
}

/// The catalog's answer to a delete or an update: no row changed is
/// `NotFound`, a failure a `DB` error.
pub fn delete_outcome(r: Result<usize, SqlFailure>) -> (out: Result<(), crate::error::Error>)
    ensures
        out is Ok <==> (r is Ok && r->Ok_0 > 0),
        r == Ok::<usize, SqlFailure>(0) ==> out->Err_0.kind == ErrType::NotFound,
        r is Err ==> out->Err_0.kind == ErrType::DB,
{
    match r {
        Ok(n) => if n == 0 {
            Err(crate::error::Error::new(ErrType::NotFound, "no such package"))
        } else {
            Ok(())
        },
        Err(f) => Err(db_error(f)),
    }
}

/// Records made from rows of name, version and location, in order.
pub fn records_from_rows(rows: Vec<(String, String, String)>) -> (r: Vec<PkgMeta>)
    ensures
        r@.len() == rows@.len(),
        forall|i: int|
            0 <= i < rows@.len() ==> (#[trigger] r@[i]).name@ == rows@[i].0@ && r@[i].version@
                == rows@[i].1@ && r@[i].location@ == rows@[i].2@,
{
    let mut out: Vec<PkgMeta> = Vec::new();
    let mut i: usize = 0;
    while i < rows.len()
        invariant
            i <= rows@.len(),
            out@.len() == i,
            forall|k: int|
                0 <= k < i ==> (#[trigger] out@[k]).name@ == rows@[k].0@ && out@[k].version@
                    == rows@[k].1@ && out@[k].location@ == rows@[k].2@,
        decreases rows@.len() - i,
    {
        let row = &rows[i];
        out.push(PkgMeta { name: row.0.clone(), version: row.1.clone(), location: row.2.clone() });
        i = i + 1;
    }
    out
}

/// Brings the database's schema up to date; running it again is harmless.
pub fn migrate(conn: &rusqlite::Connection) -> (r: Result<(), DBError<SqlFailure>>) {
    match execute_batch(conn, UP_MIGRATION) {
        Ok(()) => Ok(()),
        Err(f) => Err(DBError::MigrationFailed(f)),
    }
}

/// A catalog stored in a SQLite database file.
pub struct SqliteRepo {
    conn: rusqlite::Connection,
}

impl SqliteRepo {
    /// Opens or creates the database at `path` and brings its schema up to date.
    pub fn new(path: &str) -> (r: Result<SqliteRepo, crate::error::Error>)
        ensures
            r is Err ==> r->Err_0.kind == ErrType::DB,
    {
        let conn = match open_connection(path) {
            Ok(c) => c,
            Err(f) => return Err(db_error(f)),
        };
        match migrate(&conn) {
            Ok(()) => Ok(SqliteRepo { conn }),
            Err(DBError::MigrationFailed(f)) => Err(db_error(f)),
        }
    }

    /// Adds a record: `Usage` where its name breaks the grammar; `Conflict`
    /// where the database's unique index refuses it.
    pub fn add(&self, meta: &PkgMeta) -> (r: Result<(), crate::error::Error>)
        ensures
            !valid_name(meta.name@) ==> r is Err && r->Err_0.kind == ErrType::Usage,
            valid_name(meta.name@) && r is Err ==> (r->Err_0.kind == ErrType::Conflict
                || r->Err_0.kind == ErrType::DB),
    {
        if !is_valid_name(meta.name.as_str()) {
            return Err(crate::error::Error::new(ErrType::Usage, "package name does not follow the name grammar"));
        }
        let params = row_params(meta);
        insert_outcome(execute(&self.conn, INSERT, &params))
    }

    /// Removes the record equal to `meta`; `NotFound` where no row matched.
    pub fn delete(&self, meta: &PkgMeta) -> (r: Result<(), crate::error::Error>)
        ensures
            r is Err ==> (r->Err_0.kind == ErrType::NotFound || r->Err_0.kind == ErrType::DB),
    {
        let params = row_params(meta);
        delete_outcome(execute(&self.conn, DELETE, &params))
    }

    /// Points the record with `meta`'s name and version at `meta`'s location;
    /// `NotFound` where there is no such record.
    pub fn update(&self, meta: &PkgMeta) -> (r: Result<(), crate::error::Error>)
        ensures
            r is Err ==> (r->Err_0.kind == ErrType::NotFound || r->Err_0.kind == ErrType::DB),
    {
        let params = row_params(meta);
        delete_outcome(execute(&self.conn, UPDATE, &params))
    }

    /// The record with the given name and version, if there is one.
    pub fn get(&self, name: &str, ver: &str) -> (r: Result<Option<PkgMeta>, crate::error::Error>)
        ensures
            r matches Ok(Some(m)) ==> m.name@ == name@ && m.version@ == ver@,
            r is Err ==> r->Err_0.kind == ErrType::DB,
    {
        let params = key_params(name, ver);
        let rows = match query_rows(&self.conn, SELECT_KEY, &params) {
            Ok(rows) => records_from_rows(rows),
            Err(f) => return Err(db_error(f)),
        };
        let found = record_with_key(&rows, name, ver);
        proof {
            crate::catalog::lemma_first_match_none(rows_view(rows@), name@, ver@);
        }
        Ok(found)
    }

    /// All records, in the order they were added.
    pub fn get_all(&self) -> (r: Result<Vec<PkgMeta>, crate::error::Error>)
        ensures
            r is Err ==> r->Err_0.kind == ErrType::DB,
    {
        let params: Vec<String> = Vec::new();
        match query_rows(&self.conn, SELECT_ALL, &params) {
            Ok(rows) => Ok(records_from_rows(rows)),
            Err(f) => Err(db_error(f)),
        }
    }

    /// All records with the given name, in the order they were added.
    pub fn with_name(&self, name: &str) -> (r: Result<Vec<PkgMeta>, crate::error::Error>)
        ensures
            r matches Ok(v) ==> forall|i: int| 0 <= i < v@.len() ==> (#[trigger] v@[i]).name@ == name@,
            r is Err ==> r->Err_0.kind == ErrType::DB,
    {
        let params = name_params(name);
        match query_rows(&self.conn, SELECT_NAMED, &params) {
            Ok(rows) => {
                let records = records_from_rows(rows);
                let v = records_named(&records, name);
                proof {
                    crate::catalog::law_named_all_and_only(rows_view(records@), name@);
                    assert forall|i: int| 0 <= i < v@.len() implies (#[trigger] v@[i]).name@
                        == name@ by {
                        assert(rows_view(v@)[i] == v@[i]@);
                        assert(crate::catalog::named(rows_view(records@), name@).contains(
                            v@[i]@,
                        ));
                    }
                }
                Ok(v)
            },
            Err(f) => Err(db_error(f)),
        }
    }
}

impl PkgMetaRepo for SqliteRepo {
    fn add(&mut self, meta: &PkgMeta) -> Result<(), crate::error::Error> {
        SqliteRepo::add(self, meta)
    }

    fn delete(&mut self, meta: &PkgMeta) -> Result<(), crate::error::Error> {
        SqliteRepo::delete(self, meta)
    }

    fn get(&self, name: &str, ver: &str) -> Result<Option<PkgMeta>, crate::error::Error> {
        SqliteRepo::get(self, name, ver)
    }

    fn get_all(&self) -> Result<Vec<PkgMeta>, crate::error::Error> {
        SqliteRepo::get_all(self)
    }

    fn with_name(&self, name: &str) -> Result<Vec<PkgMeta>, crate::error::Error> {
        SqliteRepo::with_name(self, name)
    }
}

} // verus!
