//! Chaos Symphony: the verified core of a networked space game.

pub mod credentials;
pub mod ecs;
pub mod ids;
pub mod link;
pub mod pending;
pub mod poll;
pub mod protocol;
pub mod text;
pub mod wire;
