//! Replication of components: where events about an entity's components go.
use crate::ecs::lookup::{find_endpoint, find_identity, is_first_identity, is_first_index, views};
use crate::ecs::types::{Identity, Role};
use crate::protocol;
use crate::protocol::replicate_entity_components::ReplicateEntityComponentsRequest;
use std::marker::PhantomData;
use vstd::prelude::*;

verus! {

/// Which authority an untrusted event is handed to, to be checked and
/// applied there.
#[derive(Debug, Clone, Copy, PartialEq, Eq, Structural)]
pub enum UntrustedEventAuthority {
    /// A client hands events to the replication server of the entity.
    Replication,
    /// A replication server hands events to the simulation server of the entity.
    Server,
}

/// The systems that replicate one kind of component, for one role.
#[derive(Debug, Clone, Copy, PartialEq, Eq, Structural)]
pub struct ReplicationSystems {
    /// Trusted events are passed on to every other peer.
    pub send_trusted: bool,
    /// Untrusted events are handed to the entity's authority of this kind.
    pub send_untrusted: Option<UntrustedEventAuthority>,
    /// Components are sent to peers that ask for them.
    pub replicate_on_request: bool,
}

/// The replication systems of a role.
pub open spec fn systems_of(role: Role) -> ReplicationSystems {
    match role {
        Role::Client => ReplicationSystems {
            send_trusted: false,
            send_untrusted: Some(UntrustedEventAuthority::Replication),
            replicate_on_request: false,
        },
        Role::Replication => ReplicationSystems {
            send_trusted: true,
            send_untrusted: Some(UntrustedEventAuthority::Server),
            replicate_on_request: true,
        },
        Role::Simulation => ReplicationSystems {
            send_trusted: true,
            send_untrusted: None,
            replicate_on_request: true,
        },
    }
}

/// Replication Plugin: replicates components of type `C` carried by events
/// of type `E` with payload `P`. Trusted events are always applied.
#[verifier::reject_recursive_types(C)]
#[verifier::reject_recursive_types(E)]
#[verifier::reject_recursive_types(P)]
#[derive(Debug)]
pub struct ReplicationPlugin<C, E, P> {
    role: Role,
    _c: PhantomData<C>,
    _e: PhantomData<E>,
    _p: PhantomData<P>,
}

impl<C, E, P> ReplicationPlugin<C, E, P> {
    /// The role that the plugin serves.
    pub closed spec fn role(&self) -> Role {
        self.role
    }

    /// Creates a new [`ReplicationPlugin`].
    pub fn new(role: Role) -> (res: Self)
        ensures
            res.role() == role,
    {
        ReplicationPlugin { role, _c: PhantomData, _e: PhantomData, _p: PhantomData }
    }

    /// The systems that the plugin adds, besides applying trusted events.
    pub fn systems(&self) -> (res: ReplicationSystems)
        ensures
            res == systems_of(self.role()),
    {
        match self.role {
            Role::Client => ReplicationSystems {
                send_trusted: false,
                send_untrusted: Some(UntrustedEventAuthority::Replication),
                replicate_on_request: false,
            },
            Role::Replication => ReplicationSystems {
                send_trusted: true,
                send_untrusted: Some(UntrustedEventAuthority::Server),
                replicate_on_request: true,
            },
            Role::Simulation => ReplicationSystems {
                send_trusted: true,
                send_untrusted: None,
                replicate_on_request: true,
            },
        }
    }
}

/// Where an untrusted event goes.
#[derive(Debug, Clone, Copy, PartialEq, Eq, Structural)]
pub enum UntrustedRoute {
    /// No entity has the identity that the event names: it is dropped.
    EntityNotFound,
    /// No connection leads to the entity's authority: it is dropped.
    AuthorityNotFound,
    /// It goes on the connection at this position.
    To(usize),
}

/// Send untrusted event: an event about an entity goes to the peer that has
/// authority over the entity. `entity_identities[i]` and `authorities[i]`
/// are the identity and the authority of entity `i`; `endpoint_identities`
/// are those of the connections.
pub fn untrusted_event_route(
    entity_identities: &Vec<Identity>,
    authorities: &Vec<Identity>,
    endpoint_identities: &Vec<Identity>,
    entity: &protocol::types::Identity,
) -> (res: UntrustedRoute)
    requires
        entity_identities@.len() == authorities@.len(),
    ensures
        !views(entity_identities@).contains(entity@) ==> res == UntrustedRoute::EntityNotFound,
        forall|e: int|
            is_first_identity(views(entity_identities@), entity@, e) ==> {
                &&& !views(endpoint_identities@).contains(authorities@[e]@) ==> res
                    == UntrustedRoute::AuthorityNotFound
                &&& forall|k: int|
                    is_first_identity(views(endpoint_identities@), authorities@[e]@, k) ==> res
                        == UntrustedRoute::To(k as usize)
            },
{
    let e = match find_identity(entity_identities, entity) {
        Some(e) => e,
        None => {
            return UntrustedRoute::EntityNotFound;
        },
    };
    proof {
        lemma_first_identity_unique(views(entity_identities@), entity@, e as int);
    }
    let authority: protocol::types::Identity = authorities[e].clone().into();
    match find_identity(endpoint_identities, &authority) {
        Some(k) => {
            proof {
                lemma_first_identity_unique(views(endpoint_identities@), authority@, k as int);
            }
            UntrustedRoute::To(k)
        },
        None => UntrustedRoute::AuthorityNotFound,
    }
}

/// There is one first position of an identity.
pub proof fn lemma_first_identity_unique(
    identities: Seq<protocol::types::IdentityView>,
    target: protocol::types::IdentityView,
    i: int,
)
    requires
        is_first_identity(identities, target, i),
    ensures
        forall|j: int| is_first_identity(identities, target, j) ==> j == i,
{
    assert forall|j: int| is_first_identity(identities, target, j) implies j == i by {
        if j < i {
            assert(identities[j] != target);
        } else if j > i {
            assert(identities[i] != target);
        }
    }
}

/// Where the components of an entity go when a peer asks for them.
#[derive(Debug, Clone, Copy, PartialEq, Eq, Structural)]
pub enum ComponentRequestRoute {
    /// The request does not say which connection it came on.
    NoSourceEndpoint,
    /// The connection it came on is gone.
    EndpointNotFound,
    /// No entity has the identity that the request names.
    EntityNotFound,
    /// The component of the entity at position `entity` goes on the
    /// connection at position `endpoint`.
    Send {
        /// Endpoint.
        endpoint: usize,
        /// Entity.
        entity: usize,
    },
}

/// Replicate trusted component: a peer that asks for the components of an
/// entity gets them on the connection it asked on.
pub fn component_request_route(
    request: &ReplicateEntityComponentsRequest,
    endpoint_ids: &Vec<usize>,
    entity_identities: &Vec<Identity>,
) -> (res: ComponentRequestRoute)
    ensures
        match request.header.source_endpoint_id {
            None => res == ComponentRequestRoute::NoSourceEndpoint,
            Some(source) => if !endpoint_ids@.contains(source) {
                res == ComponentRequestRoute::EndpointNotFound
            } else if !views(entity_identities@).contains(request.payload.entity_identity@) {
                res == ComponentRequestRoute::EntityNotFound
            } else {
                res matches ComponentRequestRoute::Send { endpoint, entity } && is_first_index(
                    endpoint_ids@,
                    source,
                    endpoint as int,
                ) && is_first_identity(views(entity_identities@), request.payload.entity_identity@, entity as int)
            },
        },
{
    let source = match request.header.source_endpoint_id {
        Some(source) => source,
        None => {
            return ComponentRequestRoute::NoSourceEndpoint;
        },
    };
    let endpoint = match find_endpoint(endpoint_ids, source) {
        Some(endpoint) => endpoint,
        None => {
            return ComponentRequestRoute::EndpointNotFound;
        },
    };
    match find_identity(entity_identities, &request.payload.entity_identity) {
        Some(entity) => ComponentRequestRoute::Send { endpoint, entity },
        None => ComponentRequestRoute::EntityNotFound,
    }
}

} // verus!
