use vstd::prelude::*;

use crate::input::Field;

verus! {

/// A stored bot registration, as the `bot` table holds it: the caller's
/// validated fields plus the server-assigned id, creation timestamp and
/// secret token.
#[derive(Debug)]
pub struct Bot {
    pub id: i64,
    pub name: String,
    pub description: String,
    pub enable: bool,
    pub registered: i64,
    pub token: String,
    pub long_order: bool,
    pub short_order: bool,
    pub operate_type: String,
}

/// The projection of a stored bot that a token-gated read returns: every
/// persisted column except the id and the secret token.
#[derive(Debug)]
pub struct BotForGet {
    pub name: String,
    pub description: String,
    pub enable: bool,
    pub registered: i64,
    pub long_order: bool,
    pub short_order: bool,
    pub operate_type: String,
}

/// How an operation on bot records fails.
///
/// `NotFound` is a unit variant on purpose: a read that matches no record
/// — whether the id does not exist or the supplied token is wrong —
/// always yields this one value, so the outcome can never tell the two
/// apart.
#[derive(Debug)]
pub enum BotError {
    /// The input broke a field rule; carries the offending field.
    Validation(Field),
    /// The storage engine failed; carries its error description.
    Storage(String),
    /// No record matched the given id and token.
    NotFound,
}

} // verus!
