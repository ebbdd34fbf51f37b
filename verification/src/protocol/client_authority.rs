use crate::protocol::message::{Message, MessageHeader};
use crate::protocol::types::Identity;
use vstd::prelude::*;

verus! {

/// Client Authority Event.
pub type ClientAuthorityEvent = Message<ClientAuthorityEventPayload>;

impl Message<ClientAuthorityEventPayload> {
    /// Endpoint.
    pub const ENDPOINT: &'static str = "/event/client_authority";

    /// Creates a new [`ClientAuthorityEvent`].
    pub fn new(id: u128, payload: ClientAuthorityEventPayload) -> (res: Self)
        ensures
            res.id == id,
            res.endpoint@ == Self::ENDPOINT@,
            res.header.source_endpoint_id is None,
            res.header.source_identity is None,
            res.payload == payload,
    {
        Message { id, endpoint: Self::ENDPOINT.to_owned(), header: MessageHeader::empty(), payload }
    }
}

/// Client Authority Event Payload.
#[derive(Debug, Clone)]
pub struct ClientAuthorityEventPayload {
    /// Identity.
    pub identity: Identity,
    /// Authority.
    pub authority: Identity,
}

} // verus!
