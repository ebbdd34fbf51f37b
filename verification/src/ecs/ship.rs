//! Ships.
use vstd::prelude::*;

verus! {

/// Ship: marks an entity as a ship.
#[derive(Debug, Clone, Copy, PartialEq, Eq, Structural)]
pub struct Ship;

/// Ship Plugin.
#[derive(Debug, Clone, Copy, PartialEq, Eq, Structural)]
pub struct ShipPlugin;

/// Ship Spawn Plugin.
#[derive(Debug, Clone, Copy, PartialEq, Eq, Structural)]
pub struct ShipSpawnPlugin;

} // verus!
