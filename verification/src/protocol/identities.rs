use crate::protocol::message::{Message, MessageCallback, Request, Response};
use vstd::prelude::*;

verus! {

/// The endpoint of [`IdentitiesRequest`] messages.
pub const IDENTITIES_REQUEST_ENDPOINT: &'static str = "/request/identities";

/// The endpoint of [`IdentitiesResponse`] messages.
pub const IDENTITIES_RESPONSE_ENDPOINT: &'static str = "/response/identities";

/// The endpoints of this module's messages are the constants above.
pub proof fn lemma_endpoints()
    ensures
        <IdentitiesRequest as Request<IdentitiesRequestPayload, IdentitiesResponse>>::ENDPOINT == IDENTITIES_REQUEST_ENDPOINT,
        <IdentitiesResponse as Response<IdentitiesResponsePayload>>::ENDPOINT == IDENTITIES_RESPONSE_ENDPOINT,
{
}

/// Identities Callback.
pub type IdentitiesCallback = MessageCallback<IdentitiesResponse>;

/// Identities Request.
pub type IdentitiesRequest = Message<IdentitiesRequestPayload>;

impl Request<IdentitiesRequestPayload, IdentitiesResponse> for IdentitiesRequest {
    const ENDPOINT: &'static str = IDENTITIES_REQUEST_ENDPOINT;
}

/// Identities Request Payload.
#[derive(Debug, Clone, Copy, PartialEq, Eq, Structural)]
pub struct IdentitiesRequestPayload {}

/// Identities Response.
pub type IdentitiesResponse = Message<IdentitiesResponsePayload>;

impl Response<IdentitiesResponsePayload> for IdentitiesResponse {
    const ENDPOINT: &'static str = IDENTITIES_RESPONSE_ENDPOINT;
}

/// Identities Response Payload.
#[derive(Debug, Clone, Copy, PartialEq, Eq, Structural)]
pub enum IdentitiesResponsePayload {
    /// Failure.
    Failure,
    /// Success.
    Success,
}

} // verus!
