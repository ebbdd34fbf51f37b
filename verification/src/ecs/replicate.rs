//! Replicate: a peer asks to have an identity's entity replicated to it.
use crate::ecs::lookup::{find_endpoint, is_first_index, views};
use crate::ecs::types::Identity;
use crate::protocol::replicate::{ReplicateRequest, ReplicateResponse, ReplicateResponsePayload};
use vstd::prelude::*;

verus! {

/// Replicate Plugin.
#[derive(Debug, Clone, Copy, PartialEq, Eq, Structural)]
pub struct ReplicatePlugin;

/// Request: the peer that asked (found by connection id) is told whether the
/// identity exists; when it does, replication of the entity begins. A
/// request on a connection that is gone gets no answer.
pub fn replicate_reply(request: &ReplicateRequest, endpoint_id: usize, endpoint_ids: &Vec<usize>, identities: &Vec<Identity>) -> (res:
    Option<(usize, ReplicateResponse)>)
    ensures
        !endpoint_ids@.contains(endpoint_id) ==> res is None,
        endpoint_ids@.contains(endpoint_id) ==> (res matches Some((endpoint, response)) && {
            &&& is_first_index(endpoint_ids@, endpoint_id, endpoint as int)
            &&& response.id == request.id
            &&& response.endpoint@ == ReplicateResponse::ENDPOINT@
            &&& response.header.source_endpoint_id is None
            &&& response.header.source_identity is None
            &&& response.payload == if views(identities@).contains(request.payload.identity@) {
                ReplicateResponsePayload::Success
            } else {
                ReplicateResponsePayload::Failure
            }
        }),
{
    let endpoint = match find_endpoint(endpoint_ids, endpoint_id) {
        Some(endpoint) => endpoint,
        None => {
            return None;
        },
    };
    let payload = if crate::ecs::lookup::contains_identity(identities, &request.payload.identity) {
        ReplicateResponsePayload::Success
    } else {
        ReplicateResponsePayload::Failure
    };
    Some((endpoint, ReplicateResponse::new(request.id, payload)))
}

} // verus!
