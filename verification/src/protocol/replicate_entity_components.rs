use crate::protocol::message::{Message, MessageCallback, Request, Response};
use crate::protocol::types::Identity;
use vstd::prelude::*;

verus! {

/// The endpoint of [`ReplicateEntityComponentsRequest`] messages.
pub const REPLICATE_ENTITY_COMPONENTS_REQUEST_ENDPOINT: &'static str = "/request/replicate_entity_components";

/// The endpoint of [`ReplicateEntityComponentsResponse`] messages.
pub const REPLICATE_ENTITY_COMPONENTS_RESPONSE_ENDPOINT: &'static str = "/response/replicate_entity_components";

/// The endpoints of this module's messages are the constants above.
pub proof fn lemma_endpoints()
    ensures
        <ReplicateEntityComponentsRequest as Request<ReplicateEntityComponentsRequestPayload, ReplicateEntityComponentsResponse>>::ENDPOINT == REPLICATE_ENTITY_COMPONENTS_REQUEST_ENDPOINT,
        <ReplicateEntityComponentsResponse as Response<ReplicateEntityComponentsResponsePayload>>::ENDPOINT == REPLICATE_ENTITY_COMPONENTS_RESPONSE_ENDPOINT,
{
}

/// Replicate Entity Components Callback.
pub type ReplicateEntityComponentsCallback = MessageCallback<ReplicateEntityComponentsResponse>;

/// Replicate Entity Components Request.
pub type ReplicateEntityComponentsRequest = Message<ReplicateEntityComponentsRequestPayload>;

impl Request<ReplicateEntityComponentsRequestPayload, ReplicateEntityComponentsResponse> for ReplicateEntityComponentsRequest {
    const ENDPOINT: &'static str = REPLICATE_ENTITY_COMPONENTS_REQUEST_ENDPOINT;
}

/// Replicate Entity Components Request Payload.
#[derive(Debug, Clone)]
pub struct ReplicateEntityComponentsRequestPayload {
    /// Entity Identity.
    pub entity_identity: Identity,
}

/// Replicate Entity Components Response.
pub type ReplicateEntityComponentsResponse = Message<ReplicateEntityComponentsResponsePayload>;

impl Response<ReplicateEntityComponentsResponsePayload> for ReplicateEntityComponentsResponse {
    const ENDPOINT: &'static str = REPLICATE_ENTITY_COMPONENTS_RESPONSE_ENDPOINT;
}

/// Replicate Entity Components Response Payload.
#[derive(Debug, Clone, Copy, PartialEq, Eq, Structural)]
pub enum ReplicateEntityComponentsResponsePayload {
    /// Failure.
    Failure,
    /// Success.
    Success,
}

} // verus!
