use crate::ids::{fresh_id, is_random_id};
use crate::protocol::message::{Message, MessageHeader};
use vstd::prelude::*;

verus! {

/// The endpoint of transformation events. The event's payload carries
/// floating-point coordinates and is defined by the application.
pub const TRANSFORMATION_EVENT_ENDPOINT: &'static str = "/event/transformation";

/// A transformation event with a fresh id around the given payload.
pub fn transformation_event<T>(payload: T) -> (res: Message<T>)
    ensures
        is_random_id(res.id),
        res.endpoint@ == TRANSFORMATION_EVENT_ENDPOINT@,
        res.header.source_endpoint_id is None,
        res.header.source_identity is None,
        res.payload == payload,
{
    Message {
        id: fresh_id(),
        endpoint: TRANSFORMATION_EVENT_ENDPOINT.to_owned(),
        header: MessageHeader::empty(),
        payload,
    }
}

} // verus!
