//! Routes under `/channels`.

pub mod create_message;
pub mod delete;
pub mod get_messages;
pub mod update;
