//! Events delivered on a subscription.

use vstd::prelude::*;
use serde_json::Value;

verus! {

/// The context in which an event was fired.
#[derive(Debug, PartialEq, Clone)]
pub struct Context {
    pub id: String,
    pub parent_id: Option<String>,
    pub user_id: Option<String>,
}

/// The payload of an event; entity states are carried as raw JSON.
#[derive(Debug, PartialEq, Clone)]
pub struct EventData {
    pub entity_id: Option<String>,
    pub new_state: Option<Value>,
    pub old_state: Option<Value>,
}

/// An event fired on the Home Assistant event bus.
#[derive(Debug, PartialEq, Clone)]
pub struct HassEvent {
    pub data: EventData,
    pub event_type: String,
    pub time_fired: String,
    pub origin: String,
    pub context: Context,
}

} // verus!
