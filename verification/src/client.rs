//! What the client asks the server, and what it makes of the answers.
//!
//! Every request of the client goes the same way: take the next id from the
//! session, build the request under that id, send it, wait for the answer
//! with that id, and read the answer. The functions here build the requests
//! and read the answers; the waiting is done around them.

use vstd::prelude::*;
use serde_json::Value;

use crate::error::{HassError, HassResult};
use crate::types::command::{Ask, CallService, Command, Subscribe};
use crate::types::response::{OneShotResponse, Response, WSPong, WSResult};

verus! {

/// The requests that fetch a piece of the server's state.
#[derive(Debug, Clone, Copy, PartialEq, Eq, Structural)]
pub enum Query {
    /// The configuration of the server.
    Config,
    /// The states of all entities.
    States,
    /// The services that can be called.
    Services,
    /// The registered panels.
    Panels,
    /// The area registry.
    AreaRegistry,
    /// The device registry.
    DeviceRegistry,
    /// The entity registry.
    EntityRegistry,
}

/// The message type under which the server knows a query.
pub open spec fn query_msg_type(q: Query) -> Seq<char> {
    match q {
        Query::Config => "get_config"@,
        Query::States => "get_states"@,
        Query::Services => "get_services"@,
        Query::Panels => "get_panels"@,
        Query::AreaRegistry => "config/area_registry/list"@,
        Query::DeviceRegistry => "config/device_registry/list"@,
        Query::EntityRegistry => "config/entity_registry/list"@,
    }
}

/// `a` asks under `id` with message type `msg_type`.
pub open spec fn asks(a: Ask, id: u64, msg_type: Seq<char>) -> bool {
    a.id == id && a.msg_type@ == msg_type
}

/// `c` is the request for `q` under `id`.
pub open spec fn is_query_command(c: Command, q: Query, id: u64) -> bool {
    match q {
        Query::Config => c matches Command::GetConfig(a) && asks(a, id, query_msg_type(q)),
        Query::States => c matches Command::GetStates(a) && asks(a, id, query_msg_type(q)),
        Query::Services => c matches Command::GetServices(a) && asks(a, id, query_msg_type(q)),
        Query::Panels => c matches Command::GetPanels(a) && asks(a, id, query_msg_type(q)),
        Query::AreaRegistry => c matches Command::GetAreaRegistryList(a) && asks(a, id, query_msg_type(q)),
        Query::DeviceRegistry => c matches Command::GetDeviceRegistryList(a) && asks(a, id, query_msg_type(q)),
        Query::EntityRegistry => c matches Command::GetEntityRegistryList(a) && asks(a, id, query_msg_type(q)),
    }
}

/// The session that a request goes out on: the one there is, or, when
/// there is none even after an attempt to connect, the error that no request
/// can be sent.
pub fn require_session<T>(session: Option<T>) -> (r: HassResult<T>)
    ensures
        match session {
            Some(s) => r == Ok::<T, HassError>(s),
            None => r matches Err(HassError::SendError(m)) && m@ == "Session does not exist"@,
        },
{
    match session {
        Some(s) => Ok(s),
        None => Err(HassError::SendError("Session does not exist".to_owned())),
    }
}

/// The ping request under `id`.
pub fn ping_command(id: u64) -> (c: Command)
    ensures
        c matches Command::Ping(a) && asks(a, id, "ping"@),
{
    Command::Ping(Ask { id, msg_type: "ping".to_owned() })
}

/// The request for `q` under `id`.
pub fn query_command(q: Query, id: u64) -> (c: Command)
    ensures
        is_query_command(c, q, id),
{
    match q {
        Query::Config => Command::GetConfig(Ask { id, msg_type: "get_config".to_owned() }),
        Query::States => Command::GetStates(Ask { id, msg_type: "get_states".to_owned() }),
        Query::Services => Command::GetServices(Ask { id, msg_type: "get_services".to_owned() }),
        Query::Panels => Command::GetPanels(Ask { id, msg_type: "get_panels".to_owned() }),
        Query::AreaRegistry => Command::GetAreaRegistryList(
            Ask { id, msg_type: "config/area_registry/list".to_owned() },
        ),
        Query::DeviceRegistry => Command::GetDeviceRegistryList(
            Ask { id, msg_type: "config/device_registry/list".to_owned() },
        ),
        Query::EntityRegistry => Command::GetEntityRegistryList(
            Ask { id, msg_type: "config/entity_registry/list".to_owned() },
        ),
    }
}

/// The request under `id` to run `service` of `domain` with `service_data`.
pub fn call_service_command(id: u64, domain: String, service: String, service_data: Option<Value>) -> (c: Command)
    ensures
        c matches Command::CallService(cs) && cs.id == id && cs.msg_type@ == "call_service"@
            && cs.domain == domain && cs.service == service && cs.service_data == service_data,
{
    Command::CallService(CallService { id, msg_type: "call_service".to_owned(), domain, service, service_data })
}

/// The request under `id` to receive the events of type `event_name`.
pub fn subscribe_command(id: u64, event_name: &str) -> (c: Command)
    ensures
        c matches Command::SubscribeEvent(s) && s.id == id && s.msg_type@ == "subscribe_events"@
            && s.event_type@ == event_name@,
{
    Command::SubscribeEvent(Subscribe { id, msg_type: "subscribe_events".to_owned(), event_type: event_name.to_owned() })
}

/// The error for an answer that does not fit the request it answers.
pub open spec fn unexpected(answer: OneShotResponse) -> HassError {
    HassError::UnknownPayloadReceived(Response::OneShot(answer))
}

/// What a ping comes to: a pong means the connection is alive; a result
/// message is an error.
pub open spec fn ping_outcome(answer: OneShotResponse) -> HassResult<()> {
    match answer {
        OneShotResponse::Pong(_) => Ok(()),
        OneShotResponse::Result(err) => Err(HassError::ResponseError(err)),
    }
}

/// What a query comes to: the data of a successful result message.
pub open spec fn query_outcome(answer: OneShotResponse) -> HassResult<Value> {
    match answer {
        OneShotResponse::Result(data) => data.outcome(),
        _ => Err(unexpected(answer)),
    }
}

/// What a service call comes to: success when the result message reports
/// success and carries data.
pub open spec fn call_service_outcome(answer: OneShotResponse) -> HassResult<()> {
    match answer {
        OneShotResponse::Result(data) => match data.outcome() {
            Ok(_) => Ok(()),
            Err(e) => Err(e),
        },
        _ => Err(unexpected(answer)),
    }
}

/// What a subscription request comes to: the subscription is open when the
/// result message reports success.
pub open spec fn subscribe_outcome(answer: OneShotResponse) -> HassResult<()> {
    match answer {
        OneShotResponse::Result(v) => if v.succeeded() {
            Ok(())
        } else {
            Err(HassError::ResponseError(v))
        },
        _ => Err(unexpected(answer)),
    }
}

/// Reads the answer to a ping.
pub fn read_ping_answer(answer: OneShotResponse) -> (r: HassResult<()>)
    ensures
        r == ping_outcome(answer),
{
    match answer {
        OneShotResponse::Pong(_) => Ok(()),
        OneShotResponse::Result(err) => Err(HassError::ResponseError(err)),
    }
}

/// Reads the answer to a query: the data it carries.
pub fn read_query_answer(answer: OneShotResponse) -> (r: HassResult<Value>)
    ensures
        r == query_outcome(answer),
{
    match answer {
        OneShotResponse::Result(data) => data.result(),
        unknown => Err(HassError::UnknownPayloadReceived(Response::OneShot(unknown))),
    }
}

/// Reads the answer to a service call.
pub fn read_call_service_answer(answer: OneShotResponse) -> (r: HassResult<()>)
    ensures
        r == call_service_outcome(answer),
{
    match answer {
        OneShotResponse::Result(data) => match data.result() {
            Ok(_) => Ok(()),
            Err(e) => Err(e),
        },
        unknown => Err(HassError::UnknownPayloadReceived(Response::OneShot(unknown))),
    }
}

/// Reads the answer to a subscription request.
pub fn read_subscribe_answer(answer: OneShotResponse) -> (r: HassResult<()>)
    ensures
        r == subscribe_outcome(answer),
{
    match answer {
        OneShotResponse::Result(v) => if v.is_ok() {
            Ok(())
        } else {
            Err(HassError::ResponseError(v))
        },
        unknown => Err(HassError::UnknownPayloadReceived(Response::OneShot(unknown))),
    }
}

/// The query that a request asks, if it is one of the read requests.
pub open spec fn query_of(c: Command) -> Option<Query> {
    match c {
        Command::GetConfig(_) => Some(Query::Config),
        Command::GetStates(_) => Some(Query::States),
        Command::GetServices(_) => Some(Query::Services),
        Command::GetPanels(_) => Some(Query::Panels),
        Command::GetAreaRegistryList(_) => Some(Query::AreaRegistry),
        Command::GetDeviceRegistryList(_) => Some(Query::DeviceRegistry),
        Command::GetEntityRegistryList(_) => Some(Query::EntityRegistry),
        _ => None,
    }
}

/// The id and message type that a request carries, for the requests that
/// carry nothing else.
pub open spec fn ask_of(c: Command) -> Option<Ask> {
    match c {
        Command::Ping(a) => Some(a),
        Command::GetConfig(a) => Some(a),
        Command::GetStates(a) => Some(a),
        Command::GetServices(a) => Some(a),
        Command::GetPanels(a) => Some(a),
        Command::GetAreaRegistryList(a) => Some(a),
        Command::GetDeviceRegistryList(a) => Some(a),
        Command::GetEntityRegistryList(a) => Some(a),
        _ => None,
    }
}

/// For every query and every id, the request for the query is the read
/// request of that query, and carries exactly that id and the query's
/// message type.
pub proof fn law_query_request_carries_its_id(c: Command, q: Query, id: u64)
    requires
        is_query_command(c, q, id),
    ensures
        query_of(c) == Some(q),
        ask_of(c) is Some,
        ask_of(c).unwrap().id == id,
        ask_of(c).unwrap().msg_type@ == query_msg_type(q),
{
}

/// An ask under an id and a message type carries exactly those.
pub proof fn law_asks_carries_id_and_type(a: Ask, id: u64, msg_type: Seq<char>)
    requires
        asks(a, id, msg_type),
    ensures
        a.id == id,
        a.msg_type@ == msg_type,
{
}

/// Every pong confirms a ping, whatever its id; a result message in answer
/// to a ping is an error carrying that message.
pub proof fn law_any_pong_confirms_a_ping(p: WSPong, w: WSResult)
    ensures
        ping_outcome(OneShotResponse::Pong(p)) == Ok::<(), HassError>(()),
        ping_outcome(OneShotResponse::Result(w)) == Err::<(), HassError>(HassError::ResponseError(w)),
{
}

/// A service call succeeds exactly when the result message reports success
/// and carries data; otherwise the error is that result message. A pong in
/// answer is an unexpected payload.
pub proof fn law_service_call_succeeds_only_when_run(w: WSResult, p: WSPong)
    ensures
        call_service_outcome(OneShotResponse::Result(w)) is Ok <==> (w.succeeded() && w.payload() is Some),
        !(w.succeeded() && w.payload() is Some) ==> call_service_outcome(OneShotResponse::Result(w))
            == Err::<(), HassError>(HassError::ResponseError(w)),
        !w.succeeded() ==> call_service_outcome(OneShotResponse::Result(w))
            == Err::<(), HassError>(HassError::ResponseError(w)),
        call_service_outcome(OneShotResponse::Pong(p)) == Err::<(), HassError>(
            HassError::UnknownPayloadReceived(Response::OneShot(OneShotResponse::Pong(p))),
        ),
{
}

/// A query yields the data of a result message that reports success and
/// carries data, and nothing else; otherwise the error is that result
/// message. A pong in answer is an unexpected payload.
pub proof fn law_query_yields_the_servers_data(w: WSResult, p: WSPong)
    ensures
        (w.succeeded() && w.payload() is Some) ==> query_outcome(OneShotResponse::Result(w))
            == Ok::<Value, HassError>(w.payload().unwrap()),
        !(w.succeeded() && w.payload() is Some) ==> query_outcome(OneShotResponse::Result(w))
            == Err::<Value, HassError>(HassError::ResponseError(w)),
        query_outcome(OneShotResponse::Pong(p)) == Err::<Value, HassError>(
            HassError::UnknownPayloadReceived(Response::OneShot(OneShotResponse::Pong(p))),
        ),
{
}

/// A subscription opens exactly when the result message reports success,
/// whether or not it carries data; otherwise the error is that result
/// message. A pong in answer is an unexpected payload.
pub proof fn law_subscription_opens_on_success(w: WSResult, p: WSPong)
    ensures
        subscribe_outcome(OneShotResponse::Result(w)) is Ok <==> w.succeeded(),
        !w.succeeded() ==> subscribe_outcome(OneShotResponse::Result(w))
            == Err::<(), HassError>(HassError::ResponseError(w)),
        subscribe_outcome(OneShotResponse::Pong(p)) == Err::<(), HassError>(
            HassError::UnknownPayloadReceived(Response::OneShot(OneShotResponse::Pong(p))),
        ),
{
}

/// The message types under which the server knows the read requests.
pub proof fn law_query_message_types()
    ensures
        query_msg_type(Query::Config) == "get_config"@,
        query_msg_type(Query::States) == "get_states"@,
        query_msg_type(Query::Services) == "get_services"@,
        query_msg_type(Query::Panels) == "get_panels"@,
        query_msg_type(Query::AreaRegistry) == "config/area_registry/list"@,
        query_msg_type(Query::DeviceRegistry) == "config/device_registry/list"@,
        query_msg_type(Query::EntityRegistry) == "config/entity_registry/list"@,
{
}

} // verus!