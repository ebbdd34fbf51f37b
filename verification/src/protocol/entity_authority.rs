use crate::protocol::message::{Event, Message};
use crate::protocol::types::Identity;
use vstd::prelude::*;

verus! {

/// The endpoint of [`EntityClientAuthorityEvent`] messages.
pub const ENTITY_CLIENT_AUTHORITY_EVENT_ENDPOINT: &'static str = "/event/entity_client_authority";

/// The endpoint of [`EntityReplicationAuthorityEvent`] messages.
pub const ENTITY_REPLICATION_AUTHORITY_EVENT_ENDPOINT: &'static str = "/event/entity_replication_authority";

/// The endpoint of [`EntitySimulationAuthorityEvent`] messages.
pub const ENTITY_SIMULATION_AUTHORITY_EVENT_ENDPOINT: &'static str = "/event/entity_simulation_authority";

/// The endpoints of this module's messages are the constants above.
pub proof fn lemma_endpoints()
    ensures
        <EntityClientAuthorityEvent as Event<EntityClientAuthorityEventPayload>>::ENDPOINT == ENTITY_CLIENT_AUTHORITY_EVENT_ENDPOINT,
        <EntityReplicationAuthorityEvent as Event<EntityReplicationAuthorityEventPayload>>::ENDPOINT == ENTITY_REPLICATION_AUTHORITY_EVENT_ENDPOINT,
        <EntitySimulationAuthorityEvent as Event<EntitySimulationAuthorityEventPayload>>::ENDPOINT == ENTITY_SIMULATION_AUTHORITY_EVENT_ENDPOINT,
{
}

/// Entity Client Authority Event.
pub type EntityClientAuthorityEvent = Message<EntityClientAuthorityEventPayload>;

impl Event<EntityClientAuthorityEventPayload> for EntityClientAuthorityEvent {
    const ENDPOINT: &'static str = ENTITY_CLIENT_AUTHORITY_EVENT_ENDPOINT;
}

/// Entity Client Authority Event Payload.
#[derive(Debug, Clone)]
pub struct EntityClientAuthorityEventPayload {
    /// Authority Identity.
    pub authority_identity: Identity,
    /// Entity Identity.
    pub entity_identity: Identity,
}

/// Entity Replication Authority Event.
pub type EntityReplicationAuthorityEvent = Message<EntityReplicationAuthorityEventPayload>;

impl Event<EntityReplicationAuthorityEventPayload> for EntityReplicationAuthorityEvent {
    const ENDPOINT: &'static str = ENTITY_REPLICATION_AUTHORITY_EVENT_ENDPOINT;
}

/// Entity Replication Authority Event Payload.
#[derive(Debug, Clone)]
pub struct EntityReplicationAuthorityEventPayload {
    /// Authority Identity.
    pub authority_identity: Identity,
    /// Entity Identity.
    pub entity_identity: Identity,
}

/// Entity Simulation Authority Event.
pub type EntitySimulationAuthorityEvent = Message<EntitySimulationAuthorityEventPayload>;

impl Event<EntitySimulationAuthorityEventPayload> for EntitySimulationAuthorityEvent {
    const ENDPOINT: &'static str = ENTITY_SIMULATION_AUTHORITY_EVENT_ENDPOINT;
}

/// Entity Simulation Authority Event Payload.
#[derive(Debug, Clone)]
pub struct EntitySimulationAuthorityEventPayload {
    /// Authority Identity.
    pub authority_identity: Identity,
    /// Entity Identity.
    pub entity_identity: Identity,
}

} // verus!
