//! The durable word store.

pub mod models;
pub mod queries;
pub mod schema;
pub mod sqlite;

use vstd::prelude::*;
use rusqlite::Connection;
use crate::db::schema::INIT_SCHEMA;
use crate::error::EngineError;

verus! {

/// Opens the database at `path` and creates its tables where they are
/// missing.  Whether that succeeds is up to the database; a failure carries
/// its message.
pub fn init_db(path: &str) -> (opened: Result<Connection, EngineError>)
    ensures
        opened matches Err(e) ==> e is Storage,
{
    match storage_outcome(sqlite::open(path)) {
        Ok(conn) => match storage_outcome(sqlite::execute_batch(&conn, INIT_SCHEMA)) {
            Ok(()) => Ok(conn),
            Err(e) => Err(e),
        },
        Err(e) => Err(e),
    }
}

/// What an answer of the database comes to for the caller: what it brought,
/// or a `Storage` failure that carries the database's own message.
pub fn storage_outcome<T>(answer: Result<T, rusqlite::Error>) -> (outcome: Result<T, EngineError>)
    ensures
        answer matches Ok(value) ==> outcome == Ok::<T, EngineError>(value),
        answer is Err ==> outcome is Err && outcome->Err_0 is Storage,
{
    match answer {
        Ok(value) => Ok(value),
        Err(failure) => Err(EngineError::Storage(sqlite::describe(&failure))),
    }
}

} // verus!
