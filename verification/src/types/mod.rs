//! The messages exchanged with the server.

pub mod command;
pub mod event;
pub mod response;
