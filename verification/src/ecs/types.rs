use crate::ids::fresh_id;
use crate::protocol;
use crate::protocol::entity_authority::{
    EntityClientAuthorityEvent, EntityClientAuthorityEventPayload, EntityReplicationAuthorityEvent,
    EntityReplicationAuthorityEventPayload, EntitySimulationAuthorityEvent,
    EntitySimulationAuthorityEventPayload,
};
use crate::protocol::message::Event;
use crate::protocol::types::IdentityView;
use crate::protocol::entity_authority::ENTITY_CLIENT_AUTHORITY_EVENT_ENDPOINT;
use crate::protocol::entity_authority::ENTITY_REPLICATION_AUTHORITY_EVENT_ENDPOINT;
use crate::protocol::entity_authority::ENTITY_SIMULATION_AUTHORITY_EVENT_ENDPOINT;
use vstd::prelude::*;
use vstd::std_specs::cmp::PartialEqSpecImpl;
use vstd::std_specs::convert::FromSpecImpl;

verus! {

/// Identity.
#[derive(Debug)]
pub struct Identity {
    /// Id.
    pub id: u128,
    /// Noun.
    pub noun: String,
}

impl View for Identity {
    type V = IdentityView;

    open spec fn view(&self) -> IdentityView {
        IdentityView { id: self.id, noun: self.noun@ }
    }
}

impl Clone for Identity {
    fn clone(&self) -> (res: Self)
        ensures
            res@ == self@,
    {
        Identity { id: self.id, noun: self.noun.clone() }
    }
}

impl PartialEq for Identity {
    fn eq(&self, other: &Self) -> (res: bool) {
        self.id == other.id && self.noun == other.noun
    }
}

impl Eq for Identity {}

impl PartialEqSpecImpl for Identity {
    open spec fn obeys_eq_spec() -> bool {
        true
    }

    open spec fn eq_spec(&self, other: &Identity) -> bool {
        self@ == other@
    }
}

impl From<protocol::types::Identity> for Identity {
    fn from(value: protocol::types::Identity) -> (res: Self) {
        Identity { id: value.id, noun: value.noun }
    }
}

impl FromSpecImpl<protocol::types::Identity> for Identity {
    open spec fn obeys_from_spec() -> bool {
        true
    }

    open spec fn from_spec(value: protocol::types::Identity) -> Identity {
        Identity { id: value.id, noun: value.noun }
    }
}

impl From<Identity> for protocol::types::Identity {
    fn from(value: Identity) -> (res: Self) {
        protocol::types::Identity { id: value.id, noun: value.noun }
    }
}

impl FromSpecImpl<Identity> for protocol::types::Identity {
    open spec fn obeys_from_spec() -> bool {
        true
    }

    open spec fn from_spec(value: Identity) -> protocol::types::Identity {
        protocol::types::Identity { id: value.id, noun: value.noun }
    }
}

impl PartialEq<protocol::types::Identity> for Identity {
    fn eq(&self, other: &protocol::types::Identity) -> (res: bool) {
        self.id == other.id && self.noun == other.noun
    }
}

impl PartialEqSpecImpl<protocol::types::Identity> for Identity {
    open spec fn obeys_eq_spec() -> bool {
        true
    }

    open spec fn eq_spec(&self, other: &protocol::types::Identity) -> bool {
        self@ == other@
    }
}

impl PartialEq<Identity> for protocol::types::Identity {
    fn eq(&self, other: &Identity) -> (res: bool) {
        self.id == other.id && self.noun == other.noun
    }
}

impl PartialEqSpecImpl<Identity> for protocol::types::Identity {
    open spec fn obeys_eq_spec() -> bool {
        true
    }

    open spec fn eq_spec(&self, other: &Identity) -> bool {
        self@ == other@
    }
}

/// Entity Identity: the network-wide identity of a game entity.
#[derive(Debug, Clone)]
pub struct EntityIdentity {
    /// Inner.
    pub inner: Identity,
}

/// Entity Authority: who may speak for an entity.
pub trait EntityAuthority {
    /// Identity.
    fn identity(&self) -> &Identity;
}

/// Replicate Component: a component that is copied to other peers as an event.
pub trait ReplicateComponent {
    /// Message.
    type Message;

    /// To Message.
    fn to_message(&self, entity_identity: &EntityIdentity) -> Self::Message;
}

/// Replicate Event: an event that carries a component of an entity.
pub trait ReplicateEvent {
    /// The component that the event carries.
    type Bundle;

    /// Entity Identity.
    fn entity_identity(&self) -> &protocol::types::Identity;

    /// Id.
    fn id(&self) -> u128;

    /// The component to insert on the entity that the event names.
    fn bundle(&self) -> Self::Bundle;

    /// Source Identity.
    fn source_identity(&self) -> Option<&protocol::types::Identity>;
}

/// The source that a header names, as plain values.
pub open spec fn source_view(o: Option<protocol::types::Identity>) -> Option<IdentityView> {
    match o {
        Some(i) => Some(i@),
        None => None,
    }
}

fn source_ref(o: &Option<protocol::types::Identity>) -> (res: Option<&protocol::types::Identity>)
    ensures
        match res {
            Some(r) => o matches Some(i) && r@ == i@,
            None => o is None,
        },
{
    match o {
        Some(i) => Some(i),
        None => None,
    }
}

/// Entity Client Authority.
#[derive(Debug, Clone)]
pub struct EntityClientAuthority {
    /// Identity.
    pub identity: Identity,
}

impl EntityAuthority for EntityClientAuthority {
    fn identity(&self) -> (res: &Identity)
        ensures
            res@ == self.identity@,
    {
        &self.identity
    }
}

impl ReplicateComponent for EntityClientAuthority {
    type Message = EntityClientAuthorityEvent;

    /// Builds the event that tells peers who holds this authority over the
    /// entity; the event gets a fresh random id.
    fn to_message(&self, entity_identity: &EntityIdentity) -> (res: EntityClientAuthorityEvent)
        ensures
            crate::ids::is_random_id(res.id),
            res.endpoint@ == ENTITY_CLIENT_AUTHORITY_EVENT_ENDPOINT@,
            res.header.source_endpoint_id is None,
            res.header.source_identity is None,
            res.payload.authority_identity@ == self.identity@,
            res.payload.entity_identity@ == entity_identity.inner@,
    {
        proof {
            crate::protocol::entity_authority::lemma_endpoints();
        }
        let payload = EntityClientAuthorityEventPayload {
            authority_identity: self.identity.clone().into(),
            entity_identity: entity_identity.inner.clone().into(),
        };
        <EntityClientAuthorityEvent as Event<EntityClientAuthorityEventPayload>>::message(fresh_id(), payload)
    }
}

impl ReplicateEvent for EntityClientAuthorityEvent {
    type Bundle = EntityClientAuthority;

    fn entity_identity(&self) -> (res: &protocol::types::Identity)
        ensures
            res@ == self.payload.entity_identity@,
    {
        &self.payload.entity_identity
    }

    fn id(&self) -> (res: u128)
        ensures
            res == self.id,
    {
        self.id
    }

    fn bundle(&self) -> (res: EntityClientAuthority)
        ensures
            res.identity@ == self.payload.authority_identity@,
    {
        EntityClientAuthority { identity: self.payload.authority_identity.clone().into() }
    }

    fn source_identity(&self) -> (res: Option<&protocol::types::Identity>)
        ensures
            match res {
                Some(r) => source_view(self.header.source_identity) == Some(r@),
                None => self.header.source_identity is None,
            },
    {
        source_ref(&self.header.source_identity)
    }
}

/// Entity Replication Authority.
#[derive(Debug, Clone)]
pub struct EntityReplicationAuthority {
    /// Identity.
    pub identity: Identity,
}

impl EntityAuthority for EntityReplicationAuthority {
    fn identity(&self) -> (res: &Identity)
        ensures
            res@ == self.identity@,
    {
        &self.identity
    }
}

impl ReplicateComponent for EntityReplicationAuthority {
    type Message = EntityReplicationAuthorityEvent;

    /// Builds the event that tells peers who holds this authority over the
    /// entity; the event gets a fresh random id.
    fn to_message(&self, entity_identity: &EntityIdentity) -> (res: EntityReplicationAuthorityEvent)
        ensures
            crate::ids::is_random_id(res.id),
            res.endpoint@ == ENTITY_REPLICATION_AUTHORITY_EVENT_ENDPOINT@,
            res.header.source_endpoint_id is None,
            res.header.source_identity is None,
            res.payload.authority_identity@ == self.identity@,
            res.payload.entity_identity@ == entity_identity.inner@,
    {
        proof {
            crate::protocol::entity_authority::lemma_endpoints();
        }
        let payload = EntityReplicationAuthorityEventPayload {
            authority_identity: self.identity.clone().into(),
            entity_identity: entity_identity.inner.clone().into(),
        };
        <EntityReplicationAuthorityEvent as Event<EntityReplicationAuthorityEventPayload>>::message(fresh_id(), payload)
    }
}

impl ReplicateEvent for EntityReplicationAuthorityEvent {
    type Bundle = EntityReplicationAuthority;

    fn entity_identity(&self) -> (res: &protocol::types::Identity)
        ensures
            res@ == self.payload.entity_identity@,
    {
        &self.payload.entity_identity
    }

    fn id(&self) -> (res: u128)
        ensures
            res == self.id,
    {
        self.id
    }

    fn bundle(&self) -> (res: EntityReplicationAuthority)
        ensures
            res.identity@ == self.payload.authority_identity@,
    {
        EntityReplicationAuthority { identity: self.payload.authority_identity.clone().into() }
    }

    fn source_identity(&self) -> (res: Option<&protocol::types::Identity>)
        ensures
            match res {
                Some(r) => source_view(self.header.source_identity) == Some(r@),
                None => self.header.source_identity is None,
            },
    {
        source_ref(&self.header.source_identity)
    }
}

/// Entity Simulation Authority.
#[derive(Debug, Clone)]
pub struct EntitySimulationAuthority {
    /// Identity.
    pub identity: Identity,
}

impl EntityAuthority for EntitySimulationAuthority {
    fn identity(&self) -> (res: &Identity)
        ensures
            res@ == self.identity@,
    {
        &self.identity
    }
}

impl ReplicateComponent for EntitySimulationAuthority {
    type Message = EntitySimulationAuthorityEvent;

    /// Builds the event that tells peers who holds this authority over the
    /// entity; the event gets a fresh random id.
    fn to_message(&self, entity_identity: &EntityIdentity) -> (res: EntitySimulationAuthorityEvent)
        ensures
            crate::ids::is_random_id(res.id),
            res.endpoint@ == ENTITY_SIMULATION_AUTHORITY_EVENT_ENDPOINT@,
            res.header.source_endpoint_id is None,
            res.header.source_identity is None,
            res.payload.authority_identity@ == self.identity@,
            res.payload.entity_identity@ == entity_identity.inner@,
    {
        proof {
            crate::protocol::entity_authority::lemma_endpoints();
        }
        let payload = EntitySimulationAuthorityEventPayload {
            authority_identity: self.identity.clone().into(),
            entity_identity: entity_identity.inner.clone().into(),
        };
        <EntitySimulationAuthorityEvent as Event<EntitySimulationAuthorityEventPayload>>::message(fresh_id(), payload)
    }
}

impl ReplicateEvent for EntitySimulationAuthorityEvent {
    type Bundle = EntitySimulationAuthority;

    fn entity_identity(&self) -> (res: &protocol::types::Identity)
        ensures
            res@ == self.payload.entity_identity@,
    {
        &self.payload.entity_identity
    }

    fn id(&self) -> (res: u128)
        ensures
            res == self.id,
    {
        self.id
    }

    fn bundle(&self) -> (res: EntitySimulationAuthority)
        ensures
            res.identity@ == self.payload.authority_identity@,
    {
        EntitySimulationAuthority { identity: self.payload.authority_identity.clone().into() }
    }

    fn source_identity(&self) -> (res: Option<&protocol::types::Identity>)
        ensures
            match res {
                Some(r) => source_view(self.header.source_identity) == Some(r@),
                None => self.header.source_identity is None,
            },
    {
        source_ref(&self.header.source_identity)
    }
}

/// Network Identity: who is on the other end of a connection.
#[derive(Debug)]
pub struct NetworkIdentity {
    /// Inner.
    pub inner: Identity,
}

impl Clone for NetworkIdentity {
    fn clone(&self) -> (res: Self)
        ensures
            res.inner@ == self.inner@,
    {
        NetworkIdentity { inner: self.inner.clone() }
    }
}

/// Network Client Authority: marks a connection to a client.
#[derive(Debug, Clone, Copy, PartialEq, Eq, Structural)]
pub struct NetworkClientAuthority;

/// Network Replication Authority: marks a connection to a replication server.
#[derive(Debug, Clone, Copy, PartialEq, Eq, Structural)]
pub struct NetworkReplicationAuthority;

/// Network Server Authority: marks a connection to a simulation server.
#[derive(Debug, Clone, Copy, PartialEq, Eq, Structural)]
pub struct NetworkServerAuthority;

/// Replicate Sink: marks an entity whose components another peer copies to us.
#[derive(Debug, Clone, Copy, PartialEq, Eq, Structural)]
pub struct ReplicateSink;

/// Replicate Source: marks an entity whose components we copy to other peers.
#[derive(Debug, Clone, Copy, PartialEq, Eq, Structural)]
pub struct ReplicateSource;

/// Role: what part a process plays in the game's network.
#[derive(Debug, Clone, Copy, PartialEq, Eq, Structural)]
pub enum Role {
    /// Client.
    Client,
    /// Replication.
    Replication,
    /// Simulation.
    Simulation,
}

/// Trusted: a message whose source may be believed.
#[derive(Debug, Clone)]
pub struct Trusted<T> {
    /// Inner.
    pub inner: T,
}

/// Untrusted: a message whose source must be checked before it is acted on.
#[derive(Debug, Clone)]
pub struct Untrusted<T> {
    /// Inner.
    pub inner: T,
}

} // verus!
