//! The errors of the library.

use vstd::prelude::*;

use crate::types::response::{Response, WSResult};

verus! {

/// What can go wrong when talking to the server.
#[derive(Debug)]
pub enum HassError {
    /// The connection could not be opened.
    CantConnectToGateway,
    /// The server closed the connection.
    ConnectionClosed,
    /// A message could not be decoded; the decoder's explanation.
    CantDeserialize(String),
    /// The server sent a message that does not fit where it came.
    UnknownPayloadReceived(Response),
    /// The server refused the credentials, with its explanation.
    AuthenticationFailed(String),
    /// The server answered a request with an error.
    ResponseError(WSResult),
    /// A message could not be sent.
    SendError(String),
    /// An answer could not be received.
    RecvError(String),
    /// The WebSocket layer failed; its explanation.
    TungsteniteError(String),
    /// Any other failure.
    Generic(String),
}

/// The result type of the library's fallible operations.
pub type HassResult<T> = Result<T, HassError>;

} // verus!
