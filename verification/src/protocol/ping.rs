use crate::protocol::message::{Message, MessageHeader};
use vstd::prelude::*;

verus! {

/// Ping Event.
pub type PingEvent = Message<PingEventPayload>;

impl Message<PingEventPayload> {
    /// Endpoint.
    pub const ENDPOINT: &'static str = "/event/ping";

    /// Creates a new [`PingEvent`].
    pub fn new(id: u128) -> (res: Self)
        ensures
            res.id == id,
            res.endpoint@ == Self::ENDPOINT@,
            res.header.source_endpoint_id is None,
            res.header.source_identity is None,
    {
        Message { id, endpoint: Self::ENDPOINT.to_owned(), header: MessageHeader::empty(), payload: PingEventPayload }
    }
}

/// Ping Event Payload.
#[derive(Debug, Clone, Copy, PartialEq, Eq, Structural)]
pub struct PingEventPayload;

} // verus!
