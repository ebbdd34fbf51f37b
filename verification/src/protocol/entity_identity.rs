use crate::protocol::message::{Event, Message};
use crate::protocol::types::Identity;
use vstd::prelude::*;

verus! {

/// The endpoint of [`EntityIdentityEvent`] messages.
pub const ENTITY_IDENTITY_EVENT_ENDPOINT: &'static str = "/event/entity_identity";

/// The endpoints of this module's messages are the constants above.
pub proof fn lemma_endpoints()
    ensures
        <EntityIdentityEvent as Event<EntityIdentityEventPayload>>::ENDPOINT == ENTITY_IDENTITY_EVENT_ENDPOINT,
{
}

/// Entity Identity Event.
pub type EntityIdentityEvent = Message<EntityIdentityEventPayload>;

impl Event<EntityIdentityEventPayload> for EntityIdentityEvent {
    const ENDPOINT: &'static str = ENTITY_IDENTITY_EVENT_ENDPOINT;
}

/// Entity Identity Event Payload.
#[derive(Debug, Clone)]
pub struct EntityIdentityEventPayload {
    /// Inner.
    pub inner: Identity,
}

} // verus!
