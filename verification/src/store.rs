use vstd::prelude::*;

use crate::input::FieldValue;
use crate::records::{Bot, BotForGet};

verus! {

#[verifier::external_type_specification]
#[verifier::external_body]
pub struct ExConnection(rusqlite::Connection);

#[verifier::external_type_specification]
#[verifier::external_body]
pub struct ExTransaction<'a>(rusqlite::Transaction<'a>);

#[verifier::external_type_specification]
#[verifier::external_body]
pub struct ExSqlError(rusqlite::Error);

#[verifier::external_type_specification]
#[verifier::external_body]
pub struct ExJsonValue(serde_json::Value);

/// Relies on rusqlite's `Connection::transaction`: it begins a deferred
/// transaction on the connection, or reports the engine's error.
#[verifier::external_body]
pub(crate) fn begin_transaction<'a>(conn: &'a mut rusqlite::Connection) -> (r: Result<
    rusqlite::Transaction<'a>,
    rusqlite::Error,
>) {
    conn.transaction()
}

/// Relies on rusqlite's `Connection::execute` (reached through the
/// transaction): it runs the statement with the parameters bound in
/// order, returning the changed row count or the engine's error.
#[verifier::external_body]
pub(crate) fn tx_execute<'a>(
    tx: &rusqlite::Transaction<'a>,
    sql: &str,
    params: &Vec<String>,
) -> (r: Result<usize, rusqlite::Error>) {
    tx.execute(sql, rusqlite::params_from_iter(params.iter()))
}

/// Relies on rusqlite's `Connection::last_insert_rowid`: the rowid that
/// the most recent successful insert on this connection was assigned.
#[verifier::external_body]
pub(crate) fn tx_last_insert_rowid<'a>(tx: &rusqlite::Transaction<'a>) -> (r: i64) {
    tx.last_insert_rowid()
}

/// Relies on rusqlite's `Transaction::commit`.
#[verifier::external_body]
pub(crate) fn tx_commit<'a>(tx: rusqlite::Transaction<'a>) -> (r: Result<(), rusqlite::Error>) {
    tx.commit()
}

/// Relies on rusqlite's `Transaction::rollback`.
#[verifier::external_body]
pub(crate) fn tx_rollback<'a>(tx: rusqlite::Transaction<'a>) -> (r: Result<(), rusqlite::Error>) {
    tx.rollback()
}

/// Relies on rusqlite's `Connection::query_row`: it reads the row with
/// the given id, mapped into a `Bot`, and fails with
/// `QueryReturnedNoRows` when no row has that id.
#[verifier::external_body]
pub(crate) fn fetch_bot(conn: &rusqlite::Connection, id: i64) -> (r: Result<Bot, rusqlite::Error>) {
    conn.query_row(
        "select id, name, description, enable, registered, token, long_order, short_order, operate_type from bot where id = ?1",
        (id,),
        |row| Ok(Bot {
            id: row.get(0)?,
            name: row.get(1)?,
            description: row.get(2)?,
            enable: row.get(3)?,
            registered: row.get(4)?,
            token: row.get(5)?,
            long_order: row.get(6)?,
            short_order: row.get(7)?,
            operate_type: row.get(8)?,
        }),
    )
}

/// Relies on rusqlite's `Connection::query_row`: one query filtered on
/// both id and token, so existence and authorization are a single check
/// with a single observable outcome; fails with `QueryReturnedNoRows`
/// when no row matches both.
#[verifier::external_body]
pub(crate) fn fetch_bot_projection(conn: &rusqlite::Connection, id: i64, token: &str) -> (r: Result<
    BotForGet,
    rusqlite::Error,
>) {
    conn.query_row(
        "select name, description, enable, registered, long_order, short_order, operate_type from bot where id = ?1 and token = ?2",
        (id, token),
        |row| Ok(BotForGet {
            name: row.get(0)?,
            description: row.get(1)?,
            enable: row.get(2)?,
            registered: row.get(3)?,
            long_order: row.get(4)?,
            short_order: row.get(5)?,
            operate_type: row.get(6)?,
        }),
    )
}

/// Relies on rusqlite's `Error::QueryReturnedNoRows` variant: tells the
/// no-row outcome of a single-row query apart from every other engine
/// error.
#[verifier::external_body]
pub(crate) fn is_no_rows(e: &rusqlite::Error) -> (r: bool) {
    matches!(e, rusqlite::Error::QueryReturnedNoRows)
}

/// Relies on rusqlite's `Display` impl for `Error`: the engine's own
/// description of a failure.
#[verifier::external_body]
pub(crate) fn storage_message(e: &rusqlite::Error) -> (r: String) {
    format!("{}", e)
}

/// Relies on chrono's `Utc::now`: the current wall-clock time, in whole
/// seconds since the unix epoch. Nothing can be promised of a clock
/// reading.
#[verifier::external_body]
pub(crate) fn now_timestamp() -> (r: i64) {
    chrono::Utc::now().timestamp()
}

/// Relies on serde_json's `Value::get` and the `Value` variants: reads
/// one field of a JSON object and reports its shape, one variant arm
/// each — absent, a string, a boolean, or anything else.
#[verifier::external_body]
pub(crate) fn field_of_json(v: &serde_json::Value, key: &str) -> (r: FieldValue) {
    match v.get(key) {
        None => FieldValue::Absent,
        Some(serde_json::Value::String(s)) => FieldValue::Str(s.clone()),
        Some(serde_json::Value::Bool(b)) => FieldValue::Bool(*b),
        Some(_) => FieldValue::Other,
    }
}

} // verus!
