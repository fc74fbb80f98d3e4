//! The authentication phase of a connection, as a state machine.
//!
//! When a client connects, the server first sends `auth_required`. The
//! client answers with its access token; the server replies `auth_ok` when
//! it accepts the token and `auth_invalid` when it does not. The task that
//! owns the socket feeds each incoming message to [`handshake_step`] and
//! performs the action that comes back.

use vstd::prelude::*;

use crate::error::HassError;
use crate::types::command::{Auth, Command};
use crate::types::response::{AuthInvalid, AuthOk, AuthRequired, AuthResponse, Response};

verus! {

/// Where the authentication phase stands.
#[derive(Debug, Clone, Copy, PartialEq, Eq, Structural)]
pub enum HandshakeState {
    /// Connected; the server has not yet asked for credentials.
    AwaitingAuthRequired,
    /// The token was sent; the server's verdict has not come yet.
    AwaitingAuthResult,
    /// The server accepted the token.
    Authenticated,
    /// The phase ended without authentication.
    Failed,
}

/// What the socket delivered next.
#[derive(Debug)]
pub enum HandshakeEvent {
    /// The server closed the connection.
    Closed,
    /// The WebSocket layer failed, with its explanation.
    TransportError(String),
    /// A message arrived that is not text.
    NotText,
    /// A text message arrived that is no authentication message, with the
    /// decoder's explanation.
    Undecodable(String),
    /// An authentication message arrived.
    Message(AuthResponse),
}

/// What the task that owns the socket does next.
#[derive(Debug)]
pub enum HandshakeAction {
    /// Send this message, then wait for the next one.
    SendAuth(Command),
    /// The connection is authenticated.
    Finish,
    /// The connection failed with this error.
    Abort(HassError),
}

/// Whether the authentication phase is over.
pub open spec fn is_over(s: HandshakeState) -> bool {
    s is Authenticated || s is Failed
}

/// The state that follows `s` when `event` arrives.
pub open spec fn handshake_next(s: HandshakeState, event: HandshakeEvent) -> HandshakeState {
    match s {
        HandshakeState::AwaitingAuthRequired => match event {
            HandshakeEvent::Message(AuthResponse::AuthRequired(_)) => HandshakeState::AwaitingAuthResult,
            _ => HandshakeState::Failed,
        },
        HandshakeState::AwaitingAuthResult => match event {
            HandshakeEvent::Message(AuthResponse::AuthOk(_)) => HandshakeState::Authenticated,
            _ => HandshakeState::Failed,
        },
        _ => s,
    }
}

/// The explanation given when a message of the authentication phase is not text.
pub open spec fn not_text_explanation() -> Seq<char> {
    "Initial message from server was not text"@
}

/// `action` is what the client does in state `s` when `event` arrives,
/// `token` being its access token.
pub open spec fn handshake_action(s: HandshakeState, token: Seq<char>, event: HandshakeEvent, action: HandshakeAction) -> bool {
    match event {
        HandshakeEvent::Closed => action == HandshakeAction::Abort(HassError::ConnectionClosed),
        HandshakeEvent::TransportError(e) => action == HandshakeAction::Abort(HassError::TungsteniteError(e)),
        HandshakeEvent::NotText => action matches HandshakeAction::Abort(HassError::Generic(m))
            && m@ == not_text_explanation(),
        HandshakeEvent::Undecodable(e) => action == HandshakeAction::Abort(HassError::CantDeserialize(e)),
        HandshakeEvent::Message(msg) => if s is AwaitingAuthRequired {
            match msg {
                AuthResponse::AuthRequired(_) => action matches HandshakeAction::SendAuth(Command::AuthInit(a))
                    && a.msg_type@ == "auth"@ && a.access_token@ == token,
                _ => action == HandshakeAction::Abort(HassError::UnknownPayloadReceived(Response::Auth(msg))),
            }
        } else {
            match msg {
                AuthResponse::AuthOk(_) => action == HandshakeAction::Finish,
                AuthResponse::AuthInvalid(err) => action == HandshakeAction::Abort(HassError::AuthenticationFailed(err.message)),
                _ => action == HandshakeAction::Abort(HassError::UnknownPayloadReceived(Response::Auth(msg))),
            }
        },
    }
}

/// One step of the authentication phase: the next state and what to do.
pub fn handshake_step(s: HandshakeState, token: &str, event: HandshakeEvent) -> (r: (HandshakeState, HandshakeAction))
    requires
        !is_over(s),
    ensures
        r.0 == handshake_next(s, event),
        handshake_action(s, token@, event, r.1),
{
    match event {
        HandshakeEvent::Closed => (HandshakeState::Failed, HandshakeAction::Abort(HassError::ConnectionClosed)),
        HandshakeEvent::TransportError(e) => (HandshakeState::Failed, HandshakeAction::Abort(HassError::TungsteniteError(e))),
        HandshakeEvent::NotText => {
            let m = "Initial message from server was not text".to_owned();
            (HandshakeState::Failed, HandshakeAction::Abort(HassError::Generic(m)))
        },
        HandshakeEvent::Undecodable(e) => (HandshakeState::Failed, HandshakeAction::Abort(HassError::CantDeserialize(e))),
        HandshakeEvent::Message(msg) => match s {
            HandshakeState::AwaitingAuthRequired => match msg {
                AuthResponse::AuthRequired(_) => {
                    let auth = Auth { msg_type: "auth".to_owned(), access_token: token.to_owned() };
                    (HandshakeState::AwaitingAuthResult, HandshakeAction::SendAuth(Command::AuthInit(auth)))
                },
                other => (HandshakeState::Failed, HandshakeAction::Abort(HassError::UnknownPayloadReceived(Response::Auth(other)))),
            },
            _ => match msg {
                AuthResponse::AuthOk(_) => (HandshakeState::Authenticated, HandshakeAction::Finish),
                AuthResponse::AuthInvalid(err) => (HandshakeState::Failed, HandshakeAction::Abort(HassError::AuthenticationFailed(err.message))),
                other => (HandshakeState::Failed, HandshakeAction::Abort(HassError::UnknownPayloadReceived(Response::Auth(other)))),
            },
        },
    }
}

/// `event` is the server asking for credentials.
pub open spec fn asks_for_credentials(event: HandshakeEvent) -> bool {
    event matches HandshakeEvent::Message(AuthResponse::AuthRequired(_))
}

/// `event` is the server accepting the credentials.
pub open spec fn accepts_credentials(event: HandshakeEvent) -> bool {
    event matches HandshakeEvent::Message(AuthResponse::AuthOk(_))
}

/// The state that a connection reaches from `s` when `events` arrive in
/// this order; once the phase is over, later messages change nothing.
pub open spec fn handshake_run(s: HandshakeState, events: Seq<HandshakeEvent>) -> HandshakeState
    decreases events.len(),
{
    if events.len() == 0 || is_over(s) {
        s
    } else {
        handshake_run(handshake_next(s, events[0]), events.drop_first())
    }
}

/// A connection is authenticated exactly when the server's first message
/// asks for credentials and its second accepts them.
pub proof fn law_authenticated_iff_required_then_ok(events: Seq<HandshakeEvent>)
    ensures
        handshake_run(HandshakeState::AwaitingAuthRequired, events) == HandshakeState::Authenticated
            <==> (events.len() >= 2
                && asks_for_credentials(events[0]) && accepts_credentials(events[1])),
{
    reveal_with_fuel(handshake_run, 3);
    if events.len() >= 1 {
        let s1 = handshake_next(HandshakeState::AwaitingAuthRequired, events[0]);
        let rest = events.drop_first();
        assert(handshake_run(HandshakeState::AwaitingAuthRequired, events) == handshake_run(s1, rest));
        if rest.len() >= 1 {
            assert(rest[0] == events[1]);
            let s2 = handshake_next(s1, rest[0]);
            assert(is_over(s2) || s1 is Failed);
        }
    }
}

/// The token is sent only in answer to the server's request for
/// credentials, and afterwards the machine waits for the verdict, so it is
/// sent at most once. Every other step ends the phase: with success exactly
/// when the action is to finish.
pub proof fn law_token_sent_only_when_asked(
    s: HandshakeState,
    token: Seq<char>,
    event: HandshakeEvent,
    action: HandshakeAction,
)
    requires
        !is_over(s),
        handshake_action(s, token, event, action),
    ensures
        action is SendAuth <==> (s is AwaitingAuthRequired && asks_for_credentials(event)),
        action is SendAuth ==> handshake_next(s, event) is AwaitingAuthResult,
        action is Finish <==> handshake_next(s, event) is Authenticated,
        action is Abort <==> handshake_next(s, event) is Failed,
{
}

/// Whatever the token, the message that answers the server's request for
/// credentials is an auth message carrying that token unchanged.
pub proof fn law_token_sent_unchanged(token: Seq<char>, request: AuthRequired, action: HandshakeAction)
    requires
        handshake_action(
            HandshakeState::AwaitingAuthRequired,
            token,
            HandshakeEvent::Message(AuthResponse::AuthRequired(request)),
            action,
        ),
    ensures
        action is SendAuth,
        action matches HandshakeAction::SendAuth(c) && c is AuthInit,
        action matches HandshakeAction::SendAuth(Command::AuthInit(a)) && a.access_token@ == token
            && a.msg_type@ == "auth"@,
{
}

/// While the verdict is awaited, `auth_ok` finishes the phase and
/// `auth_invalid` fails it with the server's own explanation, whatever the
/// token and the message.
pub proof fn law_verdict_decides(token: Seq<char>, ok: AuthOk, invalid: AuthInvalid, a1: HandshakeAction, a2: HandshakeAction)
    requires
        handshake_action(HandshakeState::AwaitingAuthResult, token, HandshakeEvent::Message(AuthResponse::AuthOk(ok)), a1),
        handshake_action(HandshakeState::AwaitingAuthResult, token, HandshakeEvent::Message(AuthResponse::AuthInvalid(invalid)), a2),
    ensures
        a1 == HandshakeAction::Finish,
        a2 == HandshakeAction::Abort(HassError::AuthenticationFailed(invalid.message)),
        handshake_next(HandshakeState::AwaitingAuthResult, HandshakeEvent::Message(AuthResponse::AuthOk(ok)))
            == HandshakeState::Authenticated,
        handshake_next(HandshakeState::AwaitingAuthResult, HandshakeEvent::Message(AuthResponse::AuthInvalid(invalid)))
            == HandshakeState::Failed,
{
}

/// Whatever state the phase is in, a closed connection, a failing socket,
/// a frame that is not text and a message that cannot be decoded each end
/// it with the matching error; and before credentials were asked for, a
/// verdict is an unexpected payload.
pub proof fn law_failures_end_the_phase(
    s: HandshakeState,
    token: Seq<char>,
    e: String,
    ok: AuthOk,
    invalid: AuthInvalid,
    a1: HandshakeAction,
    a2: HandshakeAction,
    a3: HandshakeAction,
    a4: HandshakeAction,
    a5: HandshakeAction,
    a6: HandshakeAction,
)
    requires
        !is_over(s),
        handshake_action(s, token, HandshakeEvent::Closed, a1),
        handshake_action(s, token, HandshakeEvent::TransportError(e), a2),
        handshake_action(s, token, HandshakeEvent::NotText, a3),
        handshake_action(s, token, HandshakeEvent::Undecodable(e), a4),
        handshake_action(HandshakeState::AwaitingAuthRequired, token, HandshakeEvent::Message(AuthResponse::AuthOk(ok)), a5),
        handshake_action(
            HandshakeState::AwaitingAuthRequired,
            token,
            HandshakeEvent::Message(AuthResponse::AuthInvalid(invalid)),
            a6,
        ),
    ensures
        a1 == HandshakeAction::Abort(HassError::ConnectionClosed),
        a2 == HandshakeAction::Abort(HassError::TungsteniteError(e)),
        a3 matches HandshakeAction::Abort(HassError::Generic(m)) && m@ == "Initial message from server was not text"@,
        a4 == HandshakeAction::Abort(HassError::CantDeserialize(e)),
        a5 == HandshakeAction::Abort(HassError::UnknownPayloadReceived(Response::Auth(AuthResponse::AuthOk(ok)))),
        a6 == HandshakeAction::Abort(
            HassError::UnknownPayloadReceived(Response::Auth(AuthResponse::AuthInvalid(invalid))),
        ),
        handshake_next(s, HandshakeEvent::Closed) == HandshakeState::Failed,
        handshake_next(s, HandshakeEvent::TransportError(e)) == HandshakeState::Failed,
        handshake_next(s, HandshakeEvent::NotText) == HandshakeState::Failed,
        handshake_next(s, HandshakeEvent::Undecodable(e)) == HandshakeState::Failed,
{
}

} // verus!