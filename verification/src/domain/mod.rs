//! Validated domain values and the records read from and sent to clients.

pub mod channels;
pub mod messages;
pub mod servers;
pub mod users;
