use hass_rs::types::event::{Context, EventData, HassEvent};
use hass_rs::{
    AuthOk, AuthRequired, AuthResponse, ErrorCode, HassError, OneShotResponse, Response, WSEvent,
    WSPong, WSResult,
};
use serde_json::Value;

fn sample_event(id: u64) -> WSEvent {
    WSEvent {
        id,
        event: HassEvent {
            data: EventData { entity_id: Some("light.kitchen".to_string()), new_state: None, old_state: None },
            event_type: "state_changed".to_string(),
            time_fired: "2024-02-16T09:46:45.013050+00:00".to_string(),
            origin: "REMOTE".to_string(),
            context: Context { id: "01HPRMZAWNXKVVPSP11QFJ53HB".to_string(), parent_id: None, user_id: None },
        },
    }
}

#[test]
fn auth_message_has_no_id() {
    let r = Response::Auth(AuthResponse::AuthOk(AuthOk { ha_version: "2024.2".to_string() }));
    assert_eq!(r.id(), None);
}

#[test]
fn answer_and_event_carry_their_ids() {
    let pong = Response::OneShot(OneShotResponse::Pong(WSPong { id: 7 }));
    assert_eq!(pong.id(), Some(7));
    let result = Response::OneShot(OneShotResponse::Result(WSResult::new(9, true, None, None)));
    assert_eq!(result.id(), Some(9));
    let event = Response::Event(sample_event(4));
    assert_eq!(event.id(), Some(4));
}

#[test]
fn oneshot_id_is_the_request_id() {
    assert_eq!(OneShotResponse::Pong(WSPong { id: 12 }).id(), 12);
    assert_eq!(OneShotResponse::Result(WSResult::new(13, false, None, None)).id(), 13);
}

#[test]
fn into_auth_unwraps_or_gives_back() {
    let r = Response::Auth(AuthResponse::AuthRequired(AuthRequired { ha_version: "1".to_string() }));
    match r.into_auth() {
        Ok(AuthResponse::AuthRequired(a)) => assert_eq!(a.ha_version, "1"),
        other => panic!("unexpected {:?}", other),
    }
    let r = Response::OneShot(OneShotResponse::Pong(WSPong { id: 1 }));
    match r.into_auth() {
        Err(Response::OneShot(OneShotResponse::Pong(p))) => assert_eq!(p.id, 1),
        other => panic!("unexpected {:?}", other),
    }
}

#[test]
fn into_oneshot_unwraps_or_gives_back() {
    let r = Response::OneShot(OneShotResponse::Pong(WSPong { id: 2 }));
    match r.into_oneshot() {
        Ok(OneShotResponse::Pong(p)) => assert_eq!(p.id, 2),
        other => panic!("unexpected {:?}", other),
    }
    let r = Response::Event(sample_event(3));
    match r.into_oneshot() {
        Err(Response::Event(e)) => assert_eq!(e, sample_event(3)),
        other => panic!("unexpected {:?}", other),
    }
}

#[test]
fn into_event_unwraps_or_gives_back() {
    let r = Response::Event(sample_event(5));
    match r.into_event() {
        Ok(e) => assert_eq!(e, sample_event(5)),
        other => panic!("unexpected {:?}", other),
    }
    let r = Response::Auth(AuthResponse::AuthOk(AuthOk { ha_version: "x".to_string() }));
    assert!(matches!(r.into_event(), Err(Response::Auth(AuthResponse::AuthOk(_)))));
}

#[test]
fn is_ok_and_is_err_disagree() {
    let ok = WSResult::new(1, true, None, None);
    assert!(ok.is_ok());
    assert!(!ok.is_err());
    let err = WSResult::new(1, false, None, None);
    assert!(!err.is_ok());
    assert!(err.is_err());
}

#[test]
fn result_gives_data_of_successful_answer() {
    let w = WSResult::new(3, true, Some(Value::from(42)), None);
    match w.result() {
        Ok(v) => assert_eq!(v, Value::from(42)),
        Err(e) => panic!("unexpected {:?}", e),
    }
}

#[test]
fn result_of_success_without_data_is_an_error() {
    let w = WSResult::new(3, true, None, None);
    match w.result() {
        Err(HassError::ResponseError(back)) => assert_eq!(back, WSResult::new(3, true, None, None)),
        other => panic!("unexpected {:?}", other),
    }
}

#[test]
fn result_of_failure_is_the_answer_itself() {
    let code = ErrorCode { code: "not_found".to_string(), message: "Service not found".to_string() };
    let w = WSResult::new(8, false, Some(Value::Null), Some(code));
    match w.result() {
        Err(HassError::ResponseError(back)) => {
            let (id, success, result, error) = back.into_parts();
            assert_eq!(id, 8);
            assert!(!success);
            assert_eq!(result, Some(Value::Null));
            assert_eq!(error.unwrap().code, "not_found");
        }
        other => panic!("unexpected {:?}", other),
    }
}
