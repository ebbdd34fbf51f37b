//! The protocol: typed messages, their payloads and the endpoints they go to.

pub mod authenticate;
pub mod client_authority;
pub mod entity_authority;
pub mod entity_identities;
pub mod entity_identity;
pub mod identities;
pub mod identity;
pub mod message;
pub mod ping;
pub mod replicate;
pub mod replicate_entity_components;
pub mod ship;
pub mod ship_spawn;
pub mod transformation;
pub mod types;
