//! The game's entity logic: identities, authority, routing and replication.

pub mod authority;
pub mod bevy_config;
pub mod delegation;
pub mod entity;
pub mod entity_identities;
pub mod entity_identity;
pub mod identities;
pub mod lookup;
pub mod network;
pub mod network_authenticate;
pub mod network_authority;
pub mod network_connect;
pub mod network_keep_alive;
pub mod network_router;
pub mod outcome;
pub mod replicate;
pub mod replicate_entity_components;
pub mod replication;
pub mod routing;
pub mod ship;
pub mod transformation;
pub mod types;

use crate::link::NetworkPlugin;
use vstd::prelude::*;

verus! {

/// Default Plugins: the plugins that every process of the game runs.
#[derive(Debug)]
pub struct DefaultPlugins {
    /// Bevy Config.
    pub bevy_config: bevy_config::BevyConfigPlugin,
    /// Network Identity.
    pub network_identity: types::NetworkIdentity,
    /// Role.
    pub role: types::Role,
}

impl DefaultPlugins {
    /// The network sides of the role: clients and simulation servers
    /// connect out; a replication server accepts connections.
    pub fn network(&self) -> (res: NetworkPlugin)
        ensures
            res.client == (self.role != types::Role::Replication),
            res.server == (self.role == types::Role::Replication),
    {
        match self.role {
            types::Role::Client | types::Role::Simulation => NetworkPlugin { client: true, server: false },
            types::Role::Replication => NetworkPlugin { client: false, server: true },
        }
    }
}

} // verus!
