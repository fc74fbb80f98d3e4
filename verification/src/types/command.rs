//! The messages that the client sends.

use vstd::prelude::*;
use serde_json::Value;

verus! {

/// The authentication message, sent once after the server asks for it.
#[derive(Debug, PartialEq)]
pub struct Auth {
    pub msg_type: String,
    pub access_token: String,
}

/// A request that carries nothing but its id and its type.
#[derive(Debug, PartialEq)]
pub struct Ask {
    pub id: u64,
    pub msg_type: String,
}

/// A request to receive the events of one type.
#[derive(Debug, PartialEq)]
pub struct Subscribe {
    pub id: u64,
    pub msg_type: String,
    pub event_type: String,
}

/// A request to run a service of a domain, with optional data.
#[derive(Debug, PartialEq)]
pub struct CallService {
    pub id: u64,
    pub msg_type: String,
    pub domain: String,
    pub service: String,
    pub service_data: Option<Value>,
}

/// Any message that the client sends.
#[derive(Debug, PartialEq)]
pub enum Command {
    AuthInit(Auth),
    Ping(Ask),
    SubscribeEvent(Subscribe),
    GetConfig(Ask),
    GetStates(Ask),
    GetServices(Ask),
    GetPanels(Ask),
    GetAreaRegistryList(Ask),
    GetDeviceRegistryList(Ask),
    GetEntityRegistryList(Ask),
    CallService(CallService),
}

} // verus!
