use crate::protocol::message::{Message, MessageCallback, Request, Response};
use crate::protocol::types::Identity;
use vstd::prelude::*;

verus! {

/// The endpoint of [`ShipSpawnRequest`] messages.
pub const SHIP_SPAWN_REQUEST_ENDPOINT: &'static str = "/request/ship_spawn";

/// The endpoint of [`ShipSpawnResponse`] messages.
pub const SHIP_SPAWN_RESPONSE_ENDPOINT: &'static str = "/response/ship_spawn";

/// The endpoints of this module's messages are the constants above.
pub proof fn lemma_endpoints()
    ensures
        <ShipSpawnRequest as Request<ShipSpawnRequestPayload, ShipSpawnResponse>>::ENDPOINT == SHIP_SPAWN_REQUEST_ENDPOINT,
        <ShipSpawnResponse as Response<ShipSpawnResponsePayload>>::ENDPOINT == SHIP_SPAWN_RESPONSE_ENDPOINT,
{
}

/// Ship Spawn Callback.
pub type ShipSpawnCallback = MessageCallback<ShipSpawnResponse>;

/// Ship Spawn Request.
pub type ShipSpawnRequest = Message<ShipSpawnRequestPayload>;

impl Request<ShipSpawnRequestPayload, ShipSpawnResponse> for ShipSpawnRequest {
    const ENDPOINT: &'static str = SHIP_SPAWN_REQUEST_ENDPOINT;
}

/// Ship Spawn Request Payload.
#[derive(Debug, Clone)]
pub struct ShipSpawnRequestPayload {
    /// Entity Identity.
    pub entity_identity: Identity,
}

/// Ship Spawn Response.
pub type ShipSpawnResponse = Message<ShipSpawnResponsePayload>;

impl Response<ShipSpawnResponsePayload> for ShipSpawnResponse {
    const ENDPOINT: &'static str = SHIP_SPAWN_RESPONSE_ENDPOINT;
}

/// Ship Spawn Response Payload.
#[derive(Debug, Clone, Copy, PartialEq, Eq, Structural)]
pub enum ShipSpawnResponsePayload {
    /// Failure.
    Failure,
    /// Success.
    Success,
}

} // verus!
