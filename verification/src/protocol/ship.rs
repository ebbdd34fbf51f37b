use crate::protocol::message::{Event, Message};
use crate::protocol::types::Identity;
use vstd::prelude::*;

verus! {

/// The endpoint of [`ShipEvent`] messages.
pub const SHIP_EVENT_ENDPOINT: &'static str = "/event/ship";

/// The endpoints of this module's messages are the constants above.
pub proof fn lemma_endpoints()
    ensures
        <ShipEvent as Event<ShipEventPayload>>::ENDPOINT == SHIP_EVENT_ENDPOINT,
{
}

/// Ship Event.
pub type ShipEvent = Message<ShipEventPayload>;

impl Event<ShipEventPayload> for ShipEvent {
    const ENDPOINT: &'static str = SHIP_EVENT_ENDPOINT;
}

/// Ship Event Payload.
#[derive(Debug, Clone)]
pub struct ShipEventPayload {
    /// Entity Identity.
    pub entity_identity: Identity,
}

} // verus!
