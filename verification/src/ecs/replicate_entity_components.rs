//! Asking for the components of an entity from the peer with authority over it.
use crate::ecs::lookup::{find_endpoint, find_identity, is_first_identity, is_first_index, views};
use crate::ecs::types::{EntityIdentity, Identity, Role, Trusted, Untrusted};
use crate::ids::{fresh_id, is_random_id};
use crate::protocol::message::{Request, Response};
use crate::protocol::replicate_entity_components::{
    ReplicateEntityComponentsRequest, ReplicateEntityComponentsRequestPayload,
    ReplicateEntityComponentsResponse, ReplicateEntityComponentsResponsePayload,
};
use crate::protocol::replicate_entity_components::REPLICATE_ENTITY_COMPONENTS_REQUEST_ENDPOINT;
use crate::protocol::replicate_entity_components::REPLICATE_ENTITY_COMPONENTS_RESPONSE_ENDPOINT;
use vstd::prelude::*;

verus! {

/// Replicate Entity Components Plugin.
#[derive(Debug)]
pub struct ReplicateEntityComponentsPlugin {
    /// Role.
    role: Role,
}

impl ReplicateEntityComponentsPlugin {
    /// The role that the plugin serves.
    pub closed spec fn role(&self) -> Role {
        self.role
    }

    /// Creates a new [`ReplicateEntityComponentsPlugin`].
    pub fn new(role: Role) -> (res: Self)
        ensures
            res.role() == role,
    {
        ReplicateEntityComponentsPlugin { role }
    }

    /// Whether this peer asks simulation servers (a replication server), rather
    /// than replication servers (a client or a simulation server), and passes
    /// requests it receives on as trusted after checking them.
    pub fn asks_simulation(&self) -> (res: bool)
        ensures
            res == (self.role() == Role::Replication),
    {
        match self.role {
            Role::Replication => true,
            _ => false,
        }
    }
}

/// The request for the components of an entity, with where it goes.
#[derive(Debug)]
pub struct ComponentsRequest {
    /// The position of the connection to the entity's authority.
    pub endpoint: usize,
    /// The request.
    pub request: ReplicateEntityComponentsRequest,
}

/// Initiate: an entity whose components are neither copied in nor out yet
/// is asked for at the peer with authority over it, found among the
/// connections by identity. Without such a connection nothing is sent.
pub fn components_request(
    entity_identity: &EntityIdentity,
    authority: &Identity,
    endpoint_identities: &Vec<Identity>,
) -> (res: Option<ComponentsRequest>)
    ensures
        !views(endpoint_identities@).contains(authority@) ==> res is None,
        views(endpoint_identities@).contains(authority@) ==> (res matches Some(r) && {
            &&& is_first_identity(views(endpoint_identities@), authority@, r.endpoint as int)
            &&& is_random_id(r.request.id)
            &&& r.request.endpoint@ == REPLICATE_ENTITY_COMPONENTS_REQUEST_ENDPOINT@
            &&& r.request.header.source_endpoint_id is None
            &&& r.request.header.source_identity is None
            &&& r.request.payload.entity_identity@ == entity_identity.inner@
        }),
{
    proof {
        crate::protocol::replicate_entity_components::lemma_endpoints();
    }
    let target: crate::protocol::types::Identity = authority.clone().into();
    let endpoint = match find_identity(endpoint_identities, &target) {
        Some(endpoint) => endpoint,
        None => {
            return None;
        },
    };
    let request = <ReplicateEntityComponentsRequest as Request<
        ReplicateEntityComponentsRequestPayload,
        ReplicateEntityComponentsResponse,
    >>::message(
        fresh_id(),
        ReplicateEntityComponentsRequestPayload { entity_identity: entity_identity.inner.clone().into() },
    );
    Some(ComponentsRequest { endpoint, request })
}

/// Request: a trusted request is answered with success on the connection it
/// came on; one that names no connection, or a gone one, gets no answer.
pub fn components_reply(request: &ReplicateEntityComponentsRequest, endpoint_ids: &Vec<usize>) -> (res: Option<
    (usize, ReplicateEntityComponentsResponse),
>)
    ensures
        match request.header.source_endpoint_id {
            None => res is None,
            Some(source) => if endpoint_ids@.contains(source) {
                res matches Some((endpoint, response)) && {
                    &&& is_first_index(endpoint_ids@, source, endpoint as int)
                    &&& response.id == request.id
                    &&& response.header.source_endpoint_id is None
                    &&& response.header.source_identity is None
                    &&& response.endpoint@ == REPLICATE_ENTITY_COMPONENTS_RESPONSE_ENDPOINT@
                    &&& response.payload == ReplicateEntityComponentsResponsePayload::Success
                }
            } else {
                res is None
            },
        },
{
    proof {
        crate::protocol::replicate_entity_components::lemma_endpoints();
    }
    let source = match request.header.source_endpoint_id {
        Some(source) => source,
        None => {
            return None;
        },
    };
    match find_endpoint(endpoint_ids, source) {
        Some(endpoint) => {
            let response = <ReplicateEntityComponentsResponse as Response<
                ReplicateEntityComponentsResponsePayload,
            >>::message(request.id, ReplicateEntityComponentsResponsePayload::Success);
            Some((endpoint, response))
        },
        None => None,
    }
}

/// Validate request: an untrusted request for components is passed on as
/// trusted. Permissions are not checked: every request passes.
pub fn validate_request<T>(request: Untrusted<T>) -> (res: Trusted<T>)
    ensures
        res.inner == request.inner,
{
    Trusted { inner: request.inner }
}

} // verus!
