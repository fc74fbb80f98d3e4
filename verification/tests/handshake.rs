use hass_rs::handshake::{handshake_step, HandshakeAction, HandshakeEvent, HandshakeState};
use hass_rs::{AuthInvalid, AuthOk, AuthRequired, AuthResponse, Command, HassError, Response};

fn required() -> HandshakeEvent {
    HandshakeEvent::Message(AuthResponse::AuthRequired(AuthRequired { ha_version: "2024.2.1".to_string() }))
}

fn ok() -> HandshakeEvent {
    HandshakeEvent::Message(AuthResponse::AuthOk(AuthOk { ha_version: "2024.2.1".to_string() }))
}

#[test]
fn token_is_sent_when_server_asks() {
    let (s, a) = handshake_step(HandshakeState::AwaitingAuthRequired, "secret-token", required());
    assert_eq!(s, HandshakeState::AwaitingAuthResult);
    match a {
        HandshakeAction::SendAuth(Command::AuthInit(auth)) => {
            assert_eq!(auth.msg_type, "auth");
            assert_eq!(auth.access_token, "secret-token");
        }
        other => panic!("unexpected {:?}", other),
    }
}

#[test]
fn required_then_ok_authenticates() {
    let (s, _) = handshake_step(HandshakeState::AwaitingAuthRequired, "t", required());
    let (s, a) = handshake_step(s, "t", ok());
    assert_eq!(s, HandshakeState::Authenticated);
    assert!(matches!(a, HandshakeAction::Finish));
}

#[test]
fn ok_before_request_is_unexpected() {
    let (s, a) = handshake_step(HandshakeState::AwaitingAuthRequired, "t", ok());
    assert_eq!(s, HandshakeState::Failed);
    assert!(matches!(
        a,
        HandshakeAction::Abort(HassError::UnknownPayloadReceived(Response::Auth(AuthResponse::AuthOk(_))))
    ));
}

#[test]
fn invalid_token_fails_with_server_message() {
    let invalid = HandshakeEvent::Message(AuthResponse::AuthInvalid(AuthInvalid { message: "Invalid password".to_string() }));
    let (s, a) = handshake_step(HandshakeState::AwaitingAuthResult, "t", invalid);
    assert_eq!(s, HandshakeState::Failed);
    match a {
        HandshakeAction::Abort(HassError::AuthenticationFailed(m)) => assert_eq!(m, "Invalid password"),
        other => panic!("unexpected {:?}", other),
    }
}

#[test]
fn second_request_for_credentials_is_unexpected() {
    let (s, a) = handshake_step(HandshakeState::AwaitingAuthResult, "t", required());
    assert_eq!(s, HandshakeState::Failed);
    assert!(matches!(
        a,
        HandshakeAction::Abort(HassError::UnknownPayloadReceived(Response::Auth(AuthResponse::AuthRequired(_))))
    ));
}

#[test]
fn transport_failures_abort() {
    let (s, a) = handshake_step(HandshakeState::AwaitingAuthRequired, "t", HandshakeEvent::Closed);
    assert_eq!(s, HandshakeState::Failed);
    assert!(matches!(a, HandshakeAction::Abort(HassError::ConnectionClosed)));

    let (_, a) = handshake_step(HandshakeState::AwaitingAuthResult, "t", HandshakeEvent::NotText);
    match a {
        HandshakeAction::Abort(HassError::Generic(m)) => assert_eq!(m, "Initial message from server was not text"),
        other => panic!("unexpected {:?}", other),
    }

    let (_, a) = handshake_step(HandshakeState::AwaitingAuthRequired, "t", HandshakeEvent::Undecodable("bad json".to_string()));
    match a {
        HandshakeAction::Abort(HassError::CantDeserialize(m)) => assert_eq!(m, "bad json"),
        other => panic!("unexpected {:?}", other),
    }

    let (_, a) = handshake_step(HandshakeState::AwaitingAuthRequired, "t", HandshakeEvent::TransportError("reset".to_string()));
    match a {
        HandshakeAction::Abort(HassError::TungsteniteError(m)) => assert_eq!(m, "reset"),
        other => panic!("unexpected {:?}", other),
    }
}
