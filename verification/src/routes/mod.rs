//! The decisions of the REST routes: request bodies and their validation,
//! the checks that refuse a request, the errors and their HTTP statuses, and
//! the events a route publishes for the websocket service.

pub mod login;
pub mod register;
pub mod servers;
pub mod users;
pub mod channels;
pub mod flow;
