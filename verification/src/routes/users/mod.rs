//! Routes under `/users`.

pub mod current_user;
pub mod current_user_servers;
pub mod update;
