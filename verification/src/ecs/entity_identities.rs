//! Entity identities on request: a client asks a server for every entity it
//! knows, and the server announces them one by one.
use crate::ecs::entity_identity::announcement;
use crate::ecs::lookup::{find_endpoint, is_first_index};
use crate::ecs::types::{EntityIdentity, Role};
use crate::ids::{fresh_id, is_random_id};
use crate::protocol::entity_identities::{
    EntityIdentitiesRequest, EntityIdentitiesRequestPayload, EntityIdentitiesResponse,
    EntityIdentitiesResponsePayload,
};
use crate::protocol::entity_identity::{EntityIdentityEvent, EntityIdentityEventPayload};
use crate::protocol::message::{Event, Request, Response};
use crate::protocol::entity_identities::ENTITY_IDENTITIES_REQUEST_ENDPOINT;
use crate::protocol::entity_identities::ENTITY_IDENTITIES_RESPONSE_ENDPOINT;
use crate::protocol::entity_identity::ENTITY_IDENTITY_EVENT_ENDPOINT;
use vstd::prelude::*;

verus! {

/// Entity Identities Plugin.
#[derive(Debug)]
pub struct EntityIdentitiesPlugin {
    role: Role,
}

impl EntityIdentitiesPlugin {
    /// The role that the plugin serves.
    pub closed spec fn role(&self) -> Role {
        self.role
    }

    /// Creates a new [`EntityIdentitiesPlugin`].
    pub fn new(role: Role) -> (res: Self)
        ensures
            res.role() == role,
    {
        EntityIdentitiesPlugin { role }
    }

    /// Whether this peer answers the request (a replication server) rather
    /// than sending it (a client or a simulation server).
    pub fn answers_requests(&self) -> (res: bool)
        ensures
            res == (self.role() == Role::Replication),
    {
        match self.role {
            Role::Replication => true,
            _ => false,
        }
    }
}

/// Initiate: the request for every entity identity, with a fresh id.
pub fn entity_identities_request() -> (res: EntityIdentitiesRequest)
    ensures
        is_random_id(res.id),
        res.endpoint@ == ENTITY_IDENTITIES_REQUEST_ENDPOINT@,
        res.header.source_endpoint_id is None,
        res.header.source_identity is None,
{
    proof {
        crate::protocol::entity_identities::lemma_endpoints();
    }
    <EntityIdentitiesRequest as Request<EntityIdentitiesRequestPayload, EntityIdentitiesResponse>>::message(
        fresh_id(),
        EntityIdentitiesRequestPayload {},
    )
}

/// One announcement per entity, in order, each with a fresh id and a header
/// that names no source: the peer that receives it fills the source in.
pub fn announcements(entity_identities: &Vec<EntityIdentity>) -> (events: Vec<EntityIdentityEvent>)
    ensures
        events@.len() == entity_identities@.len(),
        forall|i: int|
            0 <= i < entity_identities@.len() ==> {
                &&& is_random_id(#[trigger] events@[i].id)
                &&& events@[i].endpoint@ == ENTITY_IDENTITY_EVENT_ENDPOINT@
                &&& events@[i].payload.inner@ == entity_identities@[i].inner@
                &&& events@[i].header.source_endpoint_id is None
                &&& events@[i].header.source_identity is None
            },
{
    let mut events: Vec<EntityIdentityEvent> = Vec::new();
    let n = entity_identities.len();
    let mut i: usize = 0;
    while i < n
        invariant
            n == entity_identities@.len(),
            i <= n,
            events@.len() == i,
            forall|k: int|
                0 <= k < i ==> {
                    &&& is_random_id(#[trigger] events@[k].id)
                    &&& events@[k].endpoint@ == ENTITY_IDENTITY_EVENT_ENDPOINT@
                    &&& events@[k].payload.inner@ == entity_identities@[k].inner@
                    &&& events@[k].header.source_endpoint_id is None
                    &&& events@[k].header.source_identity is None
                },
        decreases n - i,
    {
        events.push(announcement(&entity_identities[i]));
        i = i + 1;
    }
    events
}

/// The answer to a request for every entity identity.
#[derive(Debug)]
pub struct EntityIdentitiesReply {
    /// The position of the connection that asked.
    pub endpoint: usize,
    /// The response that goes back first.
    pub response: EntityIdentitiesResponse,
    /// Then one announcement per known entity, in order.
    pub events: Vec<EntityIdentityEvent>,
}

/// Request: the server answers on the connection that asked with success,
/// then announces each entity it knows. A request that names no connection,
/// or a connection that is gone, gets no answer.
pub fn entity_identities_reply(
    request: &EntityIdentitiesRequest,
    endpoint_ids: &Vec<usize>,
    entity_identities: &Vec<EntityIdentity>,
) -> (res: Option<EntityIdentitiesReply>)
    ensures
        match request.header.source_endpoint_id {
            None => res is None,
            Some(source) => if endpoint_ids@.contains(source) {
                res matches Some(reply) && {
                    &&& is_first_index(endpoint_ids@, source, reply.endpoint as int)
                    &&& reply.response.id == request.id
                    &&& reply.response.header.source_endpoint_id is None
                    &&& reply.response.header.source_identity is None
                    &&& reply.response.endpoint@ == ENTITY_IDENTITIES_RESPONSE_ENDPOINT@
                    &&& reply.response.payload == EntityIdentitiesResponsePayload::Success
                    &&& reply.events@.len() == entity_identities@.len()
                    &&& forall|i: int|
                        0 <= i < entity_identities@.len() ==> {
                            &&& is_random_id(#[trigger] reply.events@[i].id)
                            &&& reply.events@[i].endpoint@ == ENTITY_IDENTITY_EVENT_ENDPOINT@
                            &&& reply.events@[i].payload.inner@ == entity_identities@[i].inner@
                            &&& reply.events@[i].header.source_endpoint_id is None
                            &&& reply.events@[i].header.source_identity is None
                        }
                }
            } else {
                res is None
            },
        },
{
    proof {
        crate::protocol::entity_identities::lemma_endpoints();
    }
    let source = match request.header.source_endpoint_id {
        Some(source) => source,
        None => {
            return None;
        },
    };
    let endpoint = match find_endpoint(endpoint_ids, source) {
        Some(endpoint) => endpoint,
        None => {
            return None;
        },
    };
    let response = <EntityIdentitiesResponse as Response<EntityIdentitiesResponsePayload>>::message(
        request.id,
        EntityIdentitiesResponsePayload::Success,
    );
    let events = announcements(entity_identities);
    Some(EntityIdentitiesReply { endpoint, response, events })
}

} // verus!
