//! Entity identities: which game entities exist, as servers announce them.
use crate::ecs::lookup::views;
use crate::ecs::types::{
    EntityIdentity, EntityReplicationAuthority, EntitySimulationAuthority, Identity, Role,
};
use crate::ids::{fresh_id, is_random_id};
use crate::protocol::entity_identity::{EntityIdentityEvent, EntityIdentityEventPayload};
use crate::protocol::message::Event;
use crate::protocol::types::IdentityView;
use crate::text::same_text;
use crate::protocol::entity_identity::ENTITY_IDENTITY_EVENT_ENDPOINT;
use vstd::prelude::*;

verus! {

/// Entity Identity Plugin.
#[derive(Debug)]
pub struct EntityIdentityPlugin {
    role: Role,
}

impl EntityIdentityPlugin {
    /// The role that the plugin serves.
    pub closed spec fn role(&self) -> Role {
        self.role
    }

    /// Creates a new [`EntityIdentityPlugin`].
    pub fn new(role: Role) -> (res: Self)
        ensures
            res.role() == role,
    {
        EntityIdentityPlugin { role }
    }

    /// Whether this peer passes announcements on to its other peers (a
    /// replication server).
    pub fn relays_events(&self) -> (res: bool)
        ensures
            res == (self.role() == Role::Replication),
    {
        match self.role {
            Role::Replication => true,
            _ => false,
        }
    }

    /// Whether this peer announces its own entities (a simulation server).
    pub fn broadcasts_changes(&self) -> (res: bool)
        ensures
            res == (self.role() == Role::Simulation),
    {
        match self.role {
            Role::Simulation => true,
            _ => false,
        }
    }
}

/// The authority that a newly announced entity is put under.
#[derive(Debug)]
pub enum AnnouncedAuthority {
    /// The announcement names no source.
    Unknown,
    /// A replication server announced it.
    Replication(EntityReplicationAuthority),
    /// A simulation server announced it.
    Simulation(EntitySimulationAuthority),
}

/// What to do with a trusted announcement of an entity.
#[derive(Debug)]
pub enum AnnouncementAction {
    /// The entity exists already: nothing changes.
    AlreadyExists,
    /// A new entity with this identity is spawned, under this authority.
    Spawn {
        /// Identity.
        identity: EntityIdentity,
        /// Authority.
        authority: AnnouncedAuthority,
    },
}

/// The announcement can be applied: either the entity exists already, or
/// its source (if any) is a replication or simulation server.
pub open spec fn can_apply(existing: Seq<IdentityView>, event: EntityIdentityEvent) -> bool {
    existing.contains(event.payload.inner@) || match event.header.source_identity {
        None => true,
        Some(s) => s@.noun == "replication"@ || s@.noun == "simulation"@,
    }
}

/// Apply trusted event: an entity that is not known yet is spawned with the
/// announced identity, and put under the authority of the server that
/// announced it, so that its components can later be asked for there.
pub fn apply_trusted_event(event: &EntityIdentityEvent, existing: &Vec<Identity>) -> (res: AnnouncementAction)
    requires
        can_apply(views(existing@), *event),
    ensures
        views(existing@).contains(event.payload.inner@) ==> res is AlreadyExists,
        !views(existing@).contains(event.payload.inner@) ==> (res matches AnnouncementAction::Spawn {
            identity,
            authority,
        } && identity.inner@ == event.payload.inner@ && match event.header.source_identity {
            None => authority is Unknown,
            Some(s) => if s@.noun == "replication"@ {
                authority matches AnnouncedAuthority::Replication(a) && a.identity@ == s@
            } else {
                authority matches AnnouncedAuthority::Simulation(a) && a.identity@ == s@
            },
        }),
{
    if crate::ecs::lookup::contains_identity(existing, &event.payload.inner) {
        return AnnouncementAction::AlreadyExists;
    }
    let identity = EntityIdentity { inner: event.payload.inner.clone().into() };
    let authority = match &event.header.source_identity {
        None => AnnouncedAuthority::Unknown,
        Some(source) => {
            if same_text(source.noun.as_str(), "replication") {
                AnnouncedAuthority::Replication(EntityReplicationAuthority { identity: source.clone().into() })
            } else {
                AnnouncedAuthority::Simulation(EntitySimulationAuthority { identity: source.clone().into() })
            }
        },
    };
    AnnouncementAction::Spawn { identity, authority }
}

/// An announced entity is spawned once: once the identity that an
/// announcement spawned is among the existing ones, the same announcement may
/// be applied again, and it finds the entity already there.
pub proof fn law_announcements_spawn_once(existing: Seq<IdentityView>, event: EntityIdentityEvent)
    ensures
        existing.push(event.payload.inner@).contains(event.payload.inner@),
        can_apply(existing.push(event.payload.inner@), event),
{
    assert(existing.push(event.payload.inner@)[existing.len() as int] == event.payload.inner@);
}

/// Broadcast on change: the announcement of an entity, with a fresh id.
pub fn announcement(entity_identity: &EntityIdentity) -> (res: EntityIdentityEvent)
    ensures
        is_random_id(res.id),
        res.endpoint@ == ENTITY_IDENTITY_EVENT_ENDPOINT@,
        res.header.source_endpoint_id is None,
        res.header.source_identity is None,
        res.payload.inner@ == entity_identity.inner@,
{
    proof {
        crate::protocol::entity_identity::lemma_endpoints();
    }
    <EntityIdentityEvent as Event<EntityIdentityEventPayload>>::message(
        fresh_id(),
        EntityIdentityEventPayload { inner: entity_identity.inner.clone().into() },
    )
}

} // verus!
