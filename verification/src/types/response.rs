//! The messages that the server sends.

use vstd::prelude::*;
use serde_json::Value;

use crate::error::{HassError, HassResult};
use crate::types::event::HassEvent;

verus! {

/// Any message from the server.
///
/// Authentication messages carry no id; the other two kinds answer, or
/// belong to, the request with their id.
#[derive(Debug)]
pub enum Response {
    /// Authentication messages have no id field
    Auth(AuthResponse),
    /// A response message
    OneShot(OneShotResponse),
    /// An event on a subscription channel
    Event(WSEvent),
}

impl Response {
    /// The id that a message carries: none for authentication messages.
    pub open spec fn message_id(self) -> Option<u64> {
        match self {
            Response::Auth(_) => None,
            Response::OneShot(msg) => Some(msg.answer_id()),
            Response::Event(event) => Some(event.id),
        }
    }

    pub fn id(&self) -> (r: Option<u64>)
        ensures
            r == self.message_id(),
    {
        match self {
            Response::Auth(_) => None,
            Response::OneShot(msg) => Some(msg.id()),
            Response::Event(event) => Some(event.id),
        }
    }

    /// The authentication message inside, or the message itself when it is of another kind.
    pub fn into_auth(self) -> (r: Result<AuthResponse, Self>)
        ensures
            match self {
                Response::Auth(auth) => r == Ok::<AuthResponse, Response>(auth),
                _ => r == Err::<AuthResponse, Response>(self),
            },
    {
        match self {
            Response::Auth(auth) => Ok(auth),
            other => Err(other),
        }
    }

    /// The answer to a request inside, or the message itself when it is of another kind.
    pub fn into_oneshot(self) -> (r: Result<OneShotResponse, Self>)
        ensures
            match self {
                Response::OneShot(oneshot) => r == Ok::<OneShotResponse, Response>(oneshot),
                _ => r == Err::<OneShotResponse, Response>(self),
            },
    {
        match self {
            Response::OneShot(oneshot) => Ok(oneshot),
            other => Err(other),
        }
    }

    /// The event inside, or the message itself when it is of another kind.
    pub fn into_event(self) -> (r: Result<WSEvent, Self>)
        ensures
            match self {
                Response::Event(event) => r == Ok::<WSEvent, Response>(event),
                _ => r == Err::<WSEvent, Response>(self),
            },
    {
        match self {
            Response::Event(event) => Ok(event),
            other => Err(other),
        }
    }
}

/// The messages of the authentication phase.
#[derive(Debug)]
pub enum AuthResponse {
    /// Request to authenticate
    AuthRequired(AuthRequired),
    /// Authentication succeeded
    AuthOk(AuthOk),
    /// Authentication failed
    AuthInvalid(AuthInvalid),
}

/// The answer to one request.
#[derive(Debug)]
pub enum OneShotResponse {
    /// General response from server
    Result(WSResult),
    /// Response to ping request
    Pong(WSPong),
}

impl OneShotResponse {
    /// The id of the request that this message answers.
    pub open spec fn answer_id(self) -> u64 {
        match self {
            OneShotResponse::Pong(pong) => pong.id,
            OneShotResponse::Result(result) => result.request_id(),
        }
    }

    pub fn id(&self) -> (r: u64)
        ensures
            r == self.answer_id(),
    {
        match self {
            OneShotResponse::Pong(pong) => pong.id,
            OneShotResponse::Result(result) => result.id,
        }
    }
}

/// The first message of a connection: the server asks the client to authenticate.
#[derive(Debug, PartialEq)]
pub struct AuthRequired {
    pub ha_version: String,
}

/// The server accepted the client's credentials.
#[derive(Debug, PartialEq)]
pub struct AuthOk {
    pub ha_version: String,
}

/// The server refused the client's credentials.
#[derive(Debug, PartialEq)]
pub struct AuthInvalid {
    pub message: String,
}

/// The answer to a ping.
#[derive(Debug, PartialEq)]
pub struct WSPong {
    pub id: u64,
}

/// An event received on the subscription with this id.
#[derive(Debug, PartialEq, Clone)]
pub struct WSEvent {
    pub id: u64,
    pub event: HassEvent,
}

/// The general answer of the server to a request.
///
/// When `success` holds, `result` carries the requested data; otherwise
/// `error` says what went wrong.
#[derive(Debug, PartialEq)]
pub struct WSResult {
    pub id: u64,
    success: bool,
    result: Option<Value>,
    error: Option<ErrorCode>,
}

impl WSResult {
    /// The id of the request that this answer belongs to.
    pub closed spec fn request_id(self) -> u64 {
        self.id
    }

    /// Whether the server reports success.
    pub closed spec fn succeeded(self) -> bool {
        self.success
    }

    /// The data that the server sent, if any.
    pub closed spec fn payload(self) -> Option<Value> {
        self.result
    }

    /// The error that the server sent, if any.
    pub closed spec fn failure(self) -> Option<ErrorCode> {
        self.error
    }

    /// Builds an answer from its four fields.
    pub fn new(id: u64, success: bool, result: Option<Value>, error: Option<ErrorCode>) -> (r: Self)
        ensures
            r.request_id() == id,
            r.succeeded() == success,
            r.payload() == result,
            r.failure() == error,
    {
        WSResult { id, success, result, error }
    }

    /// Gives back the four fields: id, success, result, error.
    pub fn into_parts(self) -> (r: (u64, bool, Option<Value>, Option<ErrorCode>))
        ensures
            r == (self.request_id(), self.succeeded(), self.payload(), self.failure()),
    {
        (self.id, self.success, self.result, self.error)
    }

    pub fn is_ok(&self) -> (r: bool)
        ensures
            r == self.succeeded(),
    {
        self.success
    }

    pub fn is_err(&self) -> (r: bool)
        ensures
            r == !self.succeeded(),
    {
        !self.success
    }

    /// What a successful answer carries: its data, when the server reports
    /// success and sent data; otherwise the answer itself as an error.
    pub open spec fn outcome(self) -> HassResult<Value> {
        if self.succeeded() && self.payload() is Some {
            Ok(self.payload().unwrap())
        } else {
            Err(HassError::ResponseError(self))
        }
    }

    pub fn result(self) -> (r: HassResult<Value>)
        ensures
            r == self.outcome(),
    {
        let WSResult { id, success, result, error } = self;
        match result {
            Some(v) if success => Ok(v),
            result => Err(HassError::ResponseError(WSResult { id, success, result, error })),
        }
    }
}

/// The error part of a failed answer.
#[derive(Debug, PartialEq)]
pub struct ErrorCode {
    pub code: String,
    pub message: String,
}

/// Only authentication messages come without an id.
pub proof fn law_only_auth_lacks_id(r: Response)
    ensures
        r.message_id() is None <==> r is Auth,
{
}

/// `is_ok` and `is_err` never agree on an answer.
pub proof fn law_ok_and_err_disagree(w: WSResult, ok: bool, err: bool)
    requires
        ok == w.succeeded(),
        err == !w.succeeded(),
    ensures
        ok != err,
{
}

/// An answer yields data exactly when the server reports success and sent
/// data; otherwise the whole answer comes back as the error.
pub proof fn law_result_yields_data_only_on_success(w: WSResult)
    ensures
        w.outcome() is Ok <==> (w.succeeded() && w.payload() is Some),
        w.outcome() matches Ok(v) ==> w.payload() == Some(v),
        w.outcome() is Err ==> w.outcome() == Err::<Value, HassError>(HassError::ResponseError(w)),
{
}

/// An answer carries the id of the request it answers, and a message
/// carries the id of the answer or event inside it.
pub proof fn law_messages_carry_their_ids(p: WSPong, w: WSResult, e: WSEvent)
    ensures
        OneShotResponse::Pong(p).answer_id() == p.id,
        OneShotResponse::Result(w).answer_id() == w.request_id(),
        Response::OneShot(OneShotResponse::Pong(p)).message_id() == Some(p.id),
        Response::OneShot(OneShotResponse::Result(w)).message_id() == Some(w.request_id()),
        Response::Event(e).message_id() == Some(e.id),
{
}

} // verus!