use crate::protocol::message::{Message, MessageCallback, Request, Response};
use vstd::prelude::*;

verus! {

/// The endpoint of [`EntityIdentitiesRequest`] messages.
pub const ENTITY_IDENTITIES_REQUEST_ENDPOINT: &'static str = "/request/entity_identities";

/// The endpoint of [`EntityIdentitiesResponse`] messages.
pub const ENTITY_IDENTITIES_RESPONSE_ENDPOINT: &'static str = "/response/entity_identities";

/// The endpoints of this module's messages are the constants above.
pub proof fn lemma_endpoints()
    ensures
        <EntityIdentitiesRequest as Request<EntityIdentitiesRequestPayload, EntityIdentitiesResponse>>::ENDPOINT == ENTITY_IDENTITIES_REQUEST_ENDPOINT,
        <EntityIdentitiesResponse as Response<EntityIdentitiesResponsePayload>>::ENDPOINT == ENTITY_IDENTITIES_RESPONSE_ENDPOINT,
{
}

/// Entity Identities Callback.
pub type EntityIdentitiesCallback = MessageCallback<EntityIdentitiesResponse>;

/// Entity Identities Request.
pub type EntityIdentitiesRequest = Message<EntityIdentitiesRequestPayload>;

impl Request<EntityIdentitiesRequestPayload, EntityIdentitiesResponse> for EntityIdentitiesRequest {
    const ENDPOINT: &'static str = ENTITY_IDENTITIES_REQUEST_ENDPOINT;
}

/// Entity Identities Request Payload.
#[derive(Debug, Clone, Copy, PartialEq, Eq, Structural)]
pub struct EntityIdentitiesRequestPayload {}

/// Entity Identities Response.
pub type EntityIdentitiesResponse = Message<EntityIdentitiesResponsePayload>;

impl Response<EntityIdentitiesResponsePayload> for EntityIdentitiesResponse {
    const ENDPOINT: &'static str = ENTITY_IDENTITIES_RESPONSE_ENDPOINT;
}

/// Entity Identities Response Payload.
#[derive(Debug, Clone, Copy, PartialEq, Eq, Structural)]
pub enum EntityIdentitiesResponsePayload {
    /// Failure.
    Failure,
    /// Success.
    Success,
}

} // verus!
