use vstd::prelude::*;

use crate::input::{spec_validation_outcome, validate, RawInput};
use crate::records::{Bot, BotError, BotForGet};
use crate::sql::{build_insert_statement, insert_pairs};
use crate::store::{
    begin_transaction, fetch_bot, fetch_bot_projection, field_of_json, is_no_rows, now_timestamp,
    storage_message, tx_commit, tx_execute, tx_last_insert_rowid, tx_rollback,
};

verus! {

/// The fixed index page: the routes this service answers.
pub fn _get_index() -> (r: Result<String, String>)
    ensures
        r matches Ok(s) && s@ == r#"
        GET /ohlc/{market}/{pair}/{periods}
        GET /bot/{bot-id}
        POST /bot
    "#@,
{
    Ok(
        String::from_str(
            r#"
        GET /ohlc/{market}/{pair}/{periods}
        GET /bot/{bot-id}
        POST /bot
    "#,
        ),
    )
}

/// The token a request carries: the header's value when the header is
/// there, the empty string when it is not. An absent header is never a
/// bypass; the empty string simply fails to match any stored token.
pub fn _get_token(header: Option<String>) -> (t: String)
    ensures
        match header {
            Some(s) => t@ == s@,
            None => t@ == Seq::<char>::empty(),
        },
{
    match header {
        Some(s) => s,
        None => String::new(),
    }
}

/// Read the five bot fields out of a parsed JSON body. What each field
/// holds is opaque to the verifier; `validate` then decides everything
/// from the returned shape alone.
pub fn raw_input_from_json(v: &serde_json::Value) -> RawInput {
    RawInput {
        name: field_of_json(v, "name"),
        description: field_of_json(v, "description"),
        enable: field_of_json(v, "enable"),
        long_order: field_of_json(v, "long_order"),
        short_order: field_of_json(v, "short_order"),
    }
}

/// Register a bot: validate the input, then — inside one transaction —
/// insert exactly the validated columns plus the engine-drawn secret
/// token, and re-read the committed row by its assigned id.
///
/// When validation rejects the input, the result is exactly that
/// validation failure and the storage engine is never touched. When the
/// input is acceptable, the result is never a validation failure: it is
/// the stored record, or the storage engine's own error — after an
/// explicit rollback when the insert itself failed, so no partial row
/// remains either way.
pub fn _post_bot(conn: &mut rusqlite::Connection, inp: &RawInput) -> (r: Result<Bot, BotError>)
    ensures
        match spec_validation_outcome(*inp) {
            Some(f) => r == Err::<Bot, BotError>(BotError::Validation(f)),
            None => r matches Ok(_) || r matches Err(BotError::Storage(_)),
        },
{
    let m = match validate(inp) {
        Err(f) => {
            return Err(BotError::Validation(f));
        },
        Ok(m) => m,
    };
    let registered = now_timestamp();
    let pairs = insert_pairs(&m, registered);
    let (sql, params) = build_insert_statement(&pairs);
    let tx = match begin_transaction(conn) {
        Err(e) => {
            return Err(BotError::Storage(storage_message(&e)));
        },
        Ok(tx) => tx,
    };
    match tx_execute(&tx, sql.as_str(), &params) {
        Err(e) => {
            let msg = storage_message(&e);
            let _ = tx_rollback(tx);
            return Err(BotError::Storage(msg));
        },
        Ok(_) => {},
    }
    let last_id = tx_last_insert_rowid(&tx);
    match tx_commit(tx) {
        Err(e) => {
            return Err(BotError::Storage(storage_message(&e)));
        },
        Ok(_) => {},
    }
    match fetch_bot(conn, last_id) {
        Err(e) => Err(BotError::Storage(storage_message(&e))),
        Ok(bot) => Ok(bot),
    }
}

/// Read a bot by id, gated on its token: the stored projection when a
/// record with that id exists and its stored token equals the supplied
/// one, and otherwise `NotFound` — one value for a missing id and for a
/// wrong token alike, so the outcome leaks nothing about which it was. A
/// storage failure during the read carries the engine's description
/// instead.
pub fn _get_bot(conn: &rusqlite::Connection, id: i64, token: String) -> (r: Result<
    BotForGet,
    BotError,
>)
    ensures
        r matches Err(e) ==> e == BotError::NotFound || e matches BotError::Storage(_),
{
    match fetch_bot_projection(conn, id, token.as_str()) {
        Ok(b) => Ok(b),
        Err(e) => {
            if is_no_rows(&e) {
                Err(BotError::NotFound)
            } else {
                Err(BotError::Storage(storage_message(&e)))
            }
        },
    }
}

} // verus!
