//! The websocket service: the messages it exchanges, the server that knows
//! which user is connected on which session and decides who is told about
//! what, and the per-connection session state.

pub mod messages;
pub mod server;
pub mod session;
pub mod dispatch;
