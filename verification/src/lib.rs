pub mod input;
pub mod records;
pub mod service;
pub mod sql;
pub mod store;
pub mod text;

pub use input::{validate, Field, FieldMap, FieldValue, RawInput};
pub use records::{Bot, BotError, BotForGet};
pub use service::{raw_input_from_json, _get_bot, _get_index, _get_token, _post_bot};
pub use sql::{build_insert_statement, insert_pairs};
pub use text::{bool_flag, i64_dec, u64_dec};
