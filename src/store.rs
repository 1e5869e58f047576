//! The durable store of sticky variables: one SQLite table with a unique name
//! column, reached through rusqlite.

use vstd::prelude::*;
use crate::codec::{url_encoded, encode_value};
use crate::output::{assignment, assignment_line, list_line, listing};

verus! {

#[verifier::external_type_specification]
#[verifier::external_body]
pub struct ExConnection(rusqlite::Connection);

#[verifier::external_type_specification]
#[verifier::external_body]
pub struct ExSqlError(rusqlite::Error);

/// Creates the table of variables where it does not exist yet.
pub const CREATE_TABLE_SQL: &'static str =
    "CREATE TABLE IF NOT EXISTS vars (name TEXT NOT NULL UNIQUE, value TEXT NOT NULL, time INTEGER)";

/// Inserts a variable, replacing the record of the same name.
pub const REPLACE_SQL: &'static str = "REPLACE INTO vars (name, value, time) VALUES (?1, ?2, ?3)";

/// Selects the record of one name.
pub const SELECT_ONE_SQL: &'static str = "SELECT name, value, time FROM vars WHERE name = ?1";

/// Selects every record.
pub const SELECT_ALL_SQL: &'static str = "SELECT name, value, time FROM vars";

/// Removes the record of one name.
pub const DELETE_SQL: &'static str = "DELETE FROM vars WHERE name = ?1";

/// The failures of the store and of the commands around it.
#[derive(Clone, Debug, PartialEq, Eq)]
pub enum StoreError {
    /// The location of the database could not be resolved.
    Config,
    /// The database file could not be opened or set up.
    StorageUnavailable(String),
    /// A write to the database failed.
    StorageWrite(String),
    /// A read from the database failed.
    StorageRead(String),
    /// No variable of the requested name is stored.
    NotFound,
    /// An encoded value did not decode to UTF-8 text.
    Decode,
}

/// A stored variable.
#[derive(Clone, Debug, PartialEq, Eq)]
pub struct Record {
    pub name: String,
    pub value: String,
    /// Seconds since the Unix epoch at the last `set`, where known.
    pub modified_at: Option<i64>,
}

/// A parameter bound to a statement.
pub enum SqlParam {
    Text(String),
    Integer(i64),
}

/// Relies on rusqlite::Connection::open: opens or creates the database file.
#[verifier::external_body]
fn open_connection(path: &str) -> (r: Result<rusqlite::Connection, rusqlite::Error>) {
    rusqlite::Connection::open(path)
}

/// Relies on rusqlite::Connection::execute: runs one statement with the given
/// parameters bound in order.
#[verifier::external_body]
fn execute(conn: &rusqlite::Connection, sql: &str, params: &Vec<SqlParam>) -> (r: Result<
    usize,
    rusqlite::Error,
>) {
    let values = params.iter().map(|p| match p {
        SqlParam::Text(s) => rusqlite::types::Value::Text(s.clone()),
        SqlParam::Integer(n) => rusqlite::types::Value::Integer(*n),
    });
    conn.execute(sql, rusqlite::params_from_iter(values))
}

/// Relies on rusqlite's Connection::prepare and Statement::query_map: runs a
/// query whose columns are a name, a value and an optional time, and collects
/// its rows.
#[verifier::external_body]
fn query_records(conn: &rusqlite::Connection, sql: &str, params: &Vec<SqlParam>) -> (r: Result<
    Vec<Record>,
    rusqlite::Error,
>) {
    let values = params.iter().map(|p| match p {
        SqlParam::Text(s) => rusqlite::types::Value::Text(s.clone()),
        SqlParam::Integer(n) => rusqlite::types::Value::Integer(*n),
    });
    let mut stmt = conn.prepare(sql)?;
    let rows = stmt.query_map(rusqlite::params_from_iter(values), |row| {
        Ok(Record { name: row.get(0)?, value: row.get(1)?, modified_at: row.get(2)? })
    })?;
    rows.collect()
}

/// Relies on the `Display` impl of rusqlite::Error, for a message.
#[verifier::external_body]
fn sql_error_message(e: &rusqlite::Error) -> (r: String) {
    e.to_string()
}

/// The value of the first record, or `NotFound` where there is none.
pub fn first_value(rows: &Vec<Record>) -> (r: Result<String, StoreError>)
    ensures
        rows@.len() == 0 ==> r == Err::<String, StoreError>(StoreError::NotFound),
        rows@.len() > 0 ==> (r matches Ok(v) && v@ == rows@[0].value@),
{
    if rows.len() == 0 {
        Err(StoreError::NotFound)
    } else {
        Ok(rows[0].value.clone())
    }
}

/// The `get-all` line of each record, in order.
pub fn assignment_lines(rows: &Vec<Record>) -> (r: Vec<String>)
    ensures
        r@.len() == rows@.len(),
        forall|i: int| 0 <= i < rows@.len()
            ==> #[trigger] r@[i]@ == assignment(rows@[i].name@, url_encoded(rows@[i].value@)),
{
    let mut out: Vec<String> = Vec::new();
    let mut i: usize = 0;
    while i < rows.len()
        invariant
            i <= rows@.len(),
            out@.len() == i,
            forall|j: int| 0 <= j < i
                ==> #[trigger] out@[j]@ == assignment(rows@[j].name@, url_encoded(rows@[j].value@)),
        decreases rows@.len() - i,
    {
        let encoded = encode_value(rows[i].value.as_str());
        out.push(assignment_line(rows[i].name.as_str(), encoded.as_str()));
        i = i + 1;
    }
    out
}

/// The `list` line of each record, in order.
pub fn listing_lines(rows: &Vec<Record>) -> (r: Vec<String>)
    ensures
        r@.len() == rows@.len(),
        forall|i: int| 0 <= i < rows@.len()
            ==> #[trigger] r@[i]@ == listing(rows@[i].name@, rows@[i].value@),
{
    let mut out: Vec<String> = Vec::new();
    let mut i: usize = 0;
    while i < rows.len()
        invariant
            i <= rows@.len(),
            out@.len() == i,
            forall|j: int| 0 <= j < i
                ==> #[trigger] out@[j]@ == listing(rows@[j].name@, rows@[j].value@),
        decreases rows@.len() - i,
    {
        out.push(list_line(rows[i].name.as_str(), rows[i].value.as_str()));
        i = i + 1;
    }
    out
}

/// The parameters of `REPLACE_SQL` for one variable.
pub fn replace_params(name: &str, value: &str, modified_at: i64) -> (r: Vec<SqlParam>)
    ensures
        r@.len() == 3,
        r@[0] matches SqlParam::Text(t) && t@ == name@,
        r@[1] matches SqlParam::Text(t) && t@ == value@,
        r@[2] matches SqlParam::Integer(n) && n == modified_at,
{
    let mut params: Vec<SqlParam> = Vec::new();
    params.push(SqlParam::Text(String::from_str(name)));
    params.push(SqlParam::Text(String::from_str(value)));
    params.push(SqlParam::Integer(modified_at));
    params
}

/// One text parameter.
pub fn text_param(s: &str) -> (r: Vec<SqlParam>)
    ensures
        r@.len() == 1,
        r@[0] matches SqlParam::Text(t) && t@ == s@,
{
    let mut v: Vec<SqlParam> = Vec::new();
    v.push(SqlParam::Text(String::from_str(s)));
    v
}

/// An open store of sticky variables.
pub struct Store {
    conn: rusqlite::Connection,
}

impl Store {
    /// Opens or creates the database at `path` and makes sure its table exists.
    pub fn open(path: &str) -> (r: Result<Store, StoreError>)
        ensures
            r is Ok || r matches Err(StoreError::StorageUnavailable(_)),
    {
        let conn = match open_connection(path) {
            Ok(c) => c,
            Err(e) => return Err(StoreError::StorageUnavailable(sql_error_message(&e))),
        };
        let none: Vec<SqlParam> = Vec::new();
        match execute(&conn, CREATE_TABLE_SQL, &none) {
            Ok(_) => Ok(Store { conn }),
            Err(e) => Err(StoreError::StorageUnavailable(sql_error_message(&e))),
        }
    }

    /// Stores `value` under `name` with the time `modified_at`, replacing any
    /// record of that name.
    pub fn set(&self, name: &str, value: &str, modified_at: i64) -> (r: Result<(), StoreError>)
        ensures
            r is Ok || r matches Err(StoreError::StorageWrite(_)),
    {
        match execute(&self.conn, REPLACE_SQL, &replace_params(name, value, modified_at)) {
            Ok(_) => Ok(()),
            Err(e) => Err(StoreError::StorageWrite(sql_error_message(&e))),
        }
    }

    /// The value stored under `name`.
    pub fn get(&self, name: &str) -> (r: Result<String, StoreError>)
        ensures
            r is Ok || r matches Err(StoreError::NotFound) || r matches Err(
                StoreError::StorageRead(_),
            ),
    {
        match query_records(&self.conn, SELECT_ONE_SQL, &text_param(name)) {
            Ok(rows) => first_value(&rows),
            Err(e) => Err(StoreError::StorageRead(sql_error_message(&e))),
        }
    }

    /// Every stored record, in the order the database returns them.
    pub fn list(&self) -> (r: Result<Vec<Record>, StoreError>)
        ensures
            r is Ok || r matches Err(StoreError::StorageRead(_)),
    {
        let none: Vec<SqlParam> = Vec::new();
        match query_records(&self.conn, SELECT_ALL_SQL, &none) {
            Ok(rows) => Ok(rows),
            Err(e) => Err(StoreError::StorageRead(sql_error_message(&e))),
        }
    }

    /// Removes the record of `name`; removing an absent name is no error.
    pub fn delete(&self, name: &str) -> (r: Result<(), StoreError>)
        ensures
            r is Ok || r matches Err(StoreError::StorageWrite(_)),
    {
        match execute(&self.conn, DELETE_SQL, &text_param(name)) {
            Ok(_) => Ok(()),
            Err(e) => Err(StoreError::StorageWrite(sql_error_message(&e))),
        }
    }

    /// The `get-all` lines of every stored record.
    pub fn get_all_lines(&self) -> (r: Result<Vec<String>, StoreError>)
        ensures
            r is Ok || r matches Err(StoreError::StorageRead(_)),
    {
        match self.list() {
            Ok(rows) => Ok(assignment_lines(&rows)),
            Err(e) => Err(e),
        }
    }

    /// The `list` lines of every stored record.
    pub fn list_lines(&self) -> (r: Result<Vec<String>, StoreError>)
        ensures
            r is Ok || r matches Err(StoreError::StorageRead(_)),
    {
        match self.list() {
            Ok(rows) => Ok(listing_lines(&rows)),
            Err(e) => Err(e),
        }
    }
}

} // verus!
