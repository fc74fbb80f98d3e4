//! A client library for the Home Assistant WebSocket API.
//!
//! The verified part of the library holds the protocol's data model, the
//! bookkeeping of a session (request ids, pending requests, subscriptions),
//! the authentication handshake as a state machine, and the interpretation
//! of the server's answers. Sockets, tasks and JSON encoding live around it.

pub mod json;
pub mod channel;
pub mod types;
pub mod error;
pub mod session;
pub mod handshake;
pub mod client;

pub use error::{HassError, HassResult};
pub use types::response::{
    AuthInvalid, AuthOk, AuthRequired, AuthResponse, ErrorCode, OneShotResponse, Response,
    WSEvent, WSPong, WSResult,
};
pub use types::command::{Ask, Auth, CallService, Command, Subscribe};
pub use types::event::{Context, EventData, HassEvent};
