//! The trusted rim around the storage engine: every call into the SQL
//! library, and the clock read that stamps a written row, stands here
//! behind a small wrapper. The contents of the database file are shared
//! across processes, so no wrapper promises what a query returns; the
//! verified store decides what to do with every possible answer.

use vstd::prelude::*;

use rusqlite::OptionalExtension;

use crate::codec::DbScalar;

verus! {

#[verifier::external_type_specification]
#[verifier::external_body]
pub struct ExConnection(rusqlite::Connection);

#[verifier::external_type_specification]
#[verifier::external_body]
pub struct ExSqlValue(rusqlite::types::Value);

#[verifier::external_type_specification]
#[verifier::external_body]
pub struct ExSqlError(rusqlite::Error);

/// Why a storage call failed: the engine was busy past its timeout, or
/// any other input/output fault.
pub enum StoreFault {
    FaultBusy,
    FaultIo,
}

/// Relies on rusqlite::Error::sqlite_error_code: tells a busy engine from
/// any other fault.
#[verifier::external_body]
fn fault_of(e: rusqlite::Error) -> StoreFault {
    if e.sqlite_error_code() == Some(rusqlite::ffi::ErrorCode::DatabaseBusy) {
        StoreFault::FaultBusy
    } else {
        StoreFault::FaultIo
    }
}

/// Relies on rusqlite::Connection::open_with_flags, which fails on a
/// nonexistent file unless asked to create it, and
/// rusqlite::Connection::busy_timeout for the short retry window.
#[verifier::external_body]
pub fn db_open(path: &String, write: bool, create: bool) -> Result<rusqlite::Connection, StoreFault> {
    let flags = if write {
        let mut f = rusqlite::OpenFlags::SQLITE_OPEN_READ_WRITE;
        if create {
            f.insert(rusqlite::OpenFlags::SQLITE_OPEN_CREATE);
        }
        f
    } else {
        rusqlite::OpenFlags::SQLITE_OPEN_READ_ONLY
    };
    let conn = rusqlite::Connection::open_with_flags(path, flags).map_err(fault_of)?;
    let _ = conn.busy_timeout(std::time::Duration::from_millis(300));
    Ok(conn)
}

/// Relies on rusqlite::Connection::execute_batch: runs the statements of
/// `sql` in order.
#[verifier::external_body]
pub fn db_execute_batch(conn: &rusqlite::Connection, sql: &str) -> Result<(), StoreFault> {
    conn.execute_batch(sql).map_err(fault_of)
}

/// Relies on rusqlite::types::Value: converts one stored scalar into the
/// library's scalar, one variant per storage class; a floating-point cell,
/// which this library never writes, maps to the undecoded class.
#[verifier::external_body]
fn scalar_of_value(v: rusqlite::types::Value) -> DbScalar {
    match v {
        rusqlite::types::Value::Integer(i) => DbScalar::DbInt(i),
        rusqlite::types::Value::Text(s) => DbScalar::DbText(s),
        rusqlite::types::Value::Blob(b) => DbScalar::DbBytes(b),
        rusqlite::types::Value::Null => DbScalar::DbNull,
        rusqlite::types::Value::Real(_) => DbScalar::DbOther,
    }
}

/// Relies on rusqlite::Connection::query_row with
/// rusqlite::OptionalExtension::optional: runs `sql` with `key` bound,
/// returning the first row's scalar, or nothing when no row matches.
#[verifier::external_body]
pub fn db_select_scalar(
    conn: &rusqlite::Connection,
    sql: &str,
    key: &String,
) -> Result<Option<DbScalar>, StoreFault> {
    let row = conn
        .query_row(sql, (key.as_str(),), |row| row.get::<_, rusqlite::types::Value>(0))
        .optional()
        .map_err(fault_of)?;
    Ok(row.map(scalar_of_value))
}

/// Relies on rusqlite::Connection::execute: runs `sql` with the key, the
/// scalar and the timestamp bound to its three parameters.
#[verifier::external_body]
pub fn db_execute_row(
    conn: &rusqlite::Connection,
    sql: &str,
    key: &String,
    value: &DbScalar,
    timestamp_ms: i64,
) -> Result<(), StoreFault> {
    let bound: rusqlite::types::Value = match value {
        DbScalar::DbInt(i) => rusqlite::types::Value::Integer(*i),
        DbScalar::DbText(s) => rusqlite::types::Value::Text(s.clone()),
        DbScalar::DbBytes(b) => rusqlite::types::Value::Blob(b.clone()),
        DbScalar::DbNull => rusqlite::types::Value::Null,
        DbScalar::DbOther => rusqlite::types::Value::Null,
    };
    conn.execute(sql, (key.as_str(), bound, timestamp_ms)).map_err(fault_of)?;
    Ok(())
}

/// Relies on rusqlite::Connection::execute: runs `sql` with a stored
/// scalar and the timestamp bound after the key, for copying a row whose
/// value the library does not decode.
#[verifier::external_body]
pub fn db_execute_raw_row(
    conn: &rusqlite::Connection,
    sql: &str,
    key: &String,
    value: &rusqlite::types::Value,
    timestamp_ms: i64,
) -> Result<(), StoreFault> {
    conn.execute(sql, (key.as_str(), value, timestamp_ms)).map_err(fault_of)?;
    Ok(())
}

/// Relies on rusqlite::Statement::query_map: runs `sql` with the
/// timestamp bound, collecting the first column of every row as text.
#[verifier::external_body]
pub fn db_select_keys(
    conn: &rusqlite::Connection,
    sql: &str,
    since_ms: i64,
) -> Result<Vec<String>, StoreFault> {
    let mut stmt = conn.prepare(sql).map_err(fault_of)?;
    let rows = stmt
        .query_map((since_ms,), |row| row.get::<_, String>(0))
        .map_err(fault_of)?;
    rows.collect::<Result<Vec<String>, _>>().map_err(fault_of)
}

/// Relies on rusqlite::Statement::query_map: runs `sql`, collecting every
/// row as its key text and stored scalar, untouched.
#[verifier::external_body]
pub fn db_select_rows(
    conn: &rusqlite::Connection,
    sql: &str,
) -> Result<Vec<(String, rusqlite::types::Value)>, StoreFault> {
    let mut stmt = conn.prepare(sql).map_err(fault_of)?;
    let rows = stmt
        .query_map((), |row| {
            Ok((row.get::<_, String>(0)?, row.get::<_, rusqlite::types::Value>(1)?))
        })
        .map_err(fault_of)?;
    rows.collect::<Result<Vec<(String, rusqlite::types::Value)>, _>>().map_err(fault_of)
}

/// Relies on rusqlite::backup::Backup: copies the whole database at
/// `src_path` over the one at `dst_path`.
#[verifier::external_body]
pub fn db_copy_database(src_path: &String, dst_path: &String) -> Result<(), StoreFault> {
    let src = rusqlite::Connection::open(src_path).map_err(fault_of)?;
    let mut dst = rusqlite::Connection::open(dst_path).map_err(fault_of)?;
    let backup = rusqlite::backup::Backup::new(&src, &mut dst).map_err(fault_of)?;
    backup
        .run_to_completion(100, std::time::Duration::from_millis(250), None)
        .map_err(fault_of)
}

/// Relies on std::time::SystemTime: the milliseconds since the epoch, as
/// the clock stands now. Nothing can be promised of a clock reading.
#[verifier::external_body]
pub fn now_millis() -> i64 {
    match std::time::SystemTime::now().duration_since(std::time::SystemTime::UNIX_EPOCH) {
        Ok(d) => d.as_millis() as i64,
        Err(_) => 0,
    }
}

} // verus!
