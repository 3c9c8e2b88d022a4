//! The calls into the database.  Nothing in this file is proved: each function
//! hands its arguments to `rusqlite` and its result back.  What they return
//! depends on what the database holds, so their contracts promise nothing
//! about it, and the callers are verified for every answer.

use vstd::prelude::*;
use rusqlite::Connection;
use crate::db::models::Word;

verus! {

/// `rusqlite::Connection`, an open database.  Its content is not modelled.
#[verifier::external_type_specification]
#[verifier::external_body]
pub struct ExConnection(rusqlite::Connection);

/// `rusqlite::Error`, the failure of a database call.
#[verifier::external_type_specification]
#[verifier::external_body]
pub struct ExSqlError(rusqlite::Error);

/// `Connection::open`: opens the database at `path`, or creates it.  Nothing
/// is claimed of the outcome.
#[verifier::external_body]
pub(crate) fn open(path: &str) -> (opened: Result<Connection, rusqlite::Error>) {
    Connection::open(path)
}

/// `Connection::execute_batch`: runs the statements of `sql`, which take no
/// parameters.  Nothing is claimed of the outcome.
#[verifier::external_body]
pub(crate) fn execute_batch(conn: &Connection, sql: &str) -> (done: Result<(), rusqlite::Error>) {
    conn.execute_batch(sql)
}

/// `Connection::query_row`: runs the query `sql`, which takes no parameters,
/// and reads the first column of its first row as an integer.  It fails when
/// there is no row or the value is no 32-bit integer.  Nothing is claimed of
/// the outcome.
#[verifier::external_body]
pub(crate) fn query_integer(conn: &Connection, sql: &str) -> (value: Result<i32, rusqlite::Error>) {
    conn.query_row(sql, [], |row| row.get(0))
}

/// `Connection::prepare` and `Statement::query_map`: runs the query `sql` with
/// `args` bound to its parameters in order, and reads each row as a word, its
/// eight columns in the order of the fields of `Word`.  It fails when a
/// column does not hold a value of the field's type.  Nothing is claimed of
/// the rows that come back.
#[verifier::external_body]
pub(crate) fn query_words(conn: &Connection, sql: &str, args: &Vec<i64>) -> (rows: Result<
    Vec<Word>,
    rusqlite::Error,
>) {
    let mut statement = conn.prepare(sql)?;
    let rows = statement.query_map(rusqlite::params_from_iter(args.iter()), |row| {
        Ok(Word {
            id: row.get(0)?,
            word: row.get(1)?,
            definition: row.get(2)?,
            group_id: row.get(3)?,
            marked: row.get(4)?,
            last_seen: row.get(5)?,
            times_seen: row.get(6)?,
            success_count: row.get(7)?,
        })
    })?;
    rows.collect()
}

/// `Connection::execute`: runs the statement `sql` with `args` bound to its
/// parameters in order and returns the number of rows that it changed.
/// Nothing is claimed of that number.
#[verifier::external_body]
pub(crate) fn execute(conn: &Connection, sql: &str, args: &Vec<i64>) -> (changed: Result<
    usize,
    rusqlite::Error,
>) {
    conn.execute(sql, rusqlite::params_from_iter(args.iter()))
}

/// `ToString::to_string` on a `rusqlite::Error`: the message of the failure.
/// Nothing is claimed of the text.
#[verifier::external_body]
pub(crate) fn describe(failure: &rusqlite::Error) -> (text: String) {
    failure.to_string()
}

} // verus!
