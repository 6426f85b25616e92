//! Routes under `/servers`.

pub mod create;
pub mod create_channel;
pub mod delete;
pub mod get;
pub mod get_channels;
pub mod get_invites;
pub mod get_users;
pub mod join;
pub mod leave;
pub mod update;
