use hass_rs::client::{
    call_service_command, ping_command, query_command, read_call_service_answer, read_ping_answer,
    read_query_answer, read_subscribe_answer, require_session, subscribe_command, Query,
};
use hass_rs::{Command, HassError, OneShotResponse, Response, WSPong, WSResult};
use serde_json::Value;

#[test]
fn ping_request_carries_id_and_type() {
    match ping_command(5) {
        Command::Ping(a) => {
            assert_eq!(a.id, 5);
            assert_eq!(a.msg_type, "ping");
        }
        other => panic!("unexpected {:?}", other),
    }
}

#[test]
fn query_requests_carry_their_types() {
    let expected = [
        (Query::Config, "get_config"),
        (Query::States, "get_states"),
        (Query::Services, "get_services"),
        (Query::Panels, "get_panels"),
        (Query::AreaRegistry, "config/area_registry/list"),
        (Query::DeviceRegistry, "config/device_registry/list"),
        (Query::EntityRegistry, "config/entity_registry/list"),
    ];
    for (q, ty) in expected {
        let a = match (q, query_command(q, 11)) {
            (Query::Config, Command::GetConfig(a)) => a,
            (Query::States, Command::GetStates(a)) => a,
            (Query::Services, Command::GetServices(a)) => a,
            (Query::Panels, Command::GetPanels(a)) => a,
            (Query::AreaRegistry, Command::GetAreaRegistryList(a)) => a,
            (Query::DeviceRegistry, Command::GetDeviceRegistryList(a)) => a,
            (Query::EntityRegistry, Command::GetEntityRegistryList(a)) => a,
            other => panic!("unexpected {:?}", other),
        };
        assert_eq!(a.id, 11);
        assert_eq!(a.msg_type, ty);
    }
}

#[test]
fn call_service_request_carries_its_fields() {
    match call_service_command(3, "light".to_string(), "turn_on".to_string(), Some(Value::from("light.kitchen"))) {
        Command::CallService(c) => {
            assert_eq!(c.id, 3);
            assert_eq!(c.msg_type, "call_service");
            assert_eq!(c.domain, "light");
            assert_eq!(c.service, "turn_on");
            assert_eq!(c.service_data, Some(Value::from("light.kitchen")));
        }
        other => panic!("unexpected {:?}", other),
    }
}

#[test]
fn subscribe_request_carries_event_type() {
    match subscribe_command(2, "state_changed") {
        Command::SubscribeEvent(s) => {
            assert_eq!(s.id, 2);
            assert_eq!(s.msg_type, "subscribe_events");
            assert_eq!(s.event_type, "state_changed");
        }
        other => panic!("unexpected {:?}", other),
    }
}

#[test]
fn pong_answers_ping() {
    assert!(read_ping_answer(OneShotResponse::Pong(WSPong { id: 1 })).is_ok());
    match read_ping_answer(OneShotResponse::Result(WSResult::new(1, true, None, None))) {
        Err(HassError::ResponseError(w)) => assert_eq!(w, WSResult::new(1, true, None, None)),
        other => panic!("unexpected {:?}", other),
    }
}

#[test]
fn query_answer_yields_data() {
    let answer = OneShotResponse::Result(WSResult::new(4, true, Some(Value::from("2024.2")), None));
    assert_eq!(read_query_answer(answer).unwrap(), Value::from("2024.2"));
    match read_query_answer(OneShotResponse::Pong(WSPong { id: 4 })) {
        Err(HassError::UnknownPayloadReceived(Response::OneShot(OneShotResponse::Pong(p)))) => assert_eq!(p.id, 4),
        other => panic!("unexpected {:?}", other),
    }
    assert!(matches!(
        read_query_answer(OneShotResponse::Result(WSResult::new(4, false, None, None))),
        Err(HassError::ResponseError(_))
    ));
}

#[test]
fn call_service_answer() {
    let done = OneShotResponse::Result(WSResult::new(6, true, Some(Value::Null), None));
    assert!(read_call_service_answer(done).is_ok());
    let no_data = OneShotResponse::Result(WSResult::new(6, true, None, None));
    assert!(matches!(read_call_service_answer(no_data), Err(HassError::ResponseError(_))));
    assert!(matches!(
        read_call_service_answer(OneShotResponse::Pong(WSPong { id: 6 })),
        Err(HassError::UnknownPayloadReceived(_))
    ));
}

#[test]
fn subscribe_answer() {
    assert!(read_subscribe_answer(OneShotResponse::Result(WSResult::new(1, true, None, None))).is_ok());
    assert!(matches!(
        read_subscribe_answer(OneShotResponse::Result(WSResult::new(1, false, None, None))),
        Err(HassError::ResponseError(_))
    ));
    assert!(matches!(
        read_subscribe_answer(OneShotResponse::Pong(WSPong { id: 1 })),
        Err(HassError::UnknownPayloadReceived(_))
    ));
}

#[test]
fn missing_session_is_a_send_error() {
    assert_eq!(require_session(Some(4)).unwrap(), 4);
    match require_session::<u8>(None) {
        Err(HassError::SendError(m)) => assert_eq!(m, "Session does not exist"),
        other => panic!("unexpected {:?}", other),
    }
}
