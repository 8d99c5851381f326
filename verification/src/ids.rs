//! Identifiers and grid positions, as plain integers.

use vstd::prelude::*;

verus! {

/// A node of the render scene.
#[derive(Clone, Copy, Debug, PartialEq, Eq, Structural)]
pub struct NodeId {
    pub id: i32,
}

/// A unit of the game state.
#[derive(Clone, Copy, Debug, PartialEq, Eq, Structural)]
pub struct UnitId {
    pub id: i32,
}

/// The type of a unit (which mesh and speed it is shown with).
#[derive(Clone, Copy, Debug, PartialEq, Eq, Structural)]
pub struct UnitTypeId {
    pub id: i32,
}

/// A sector of the map.
#[derive(Clone, Copy, Debug, PartialEq, Eq, Structural)]
pub struct SectorId {
    pub id: i32,
}

/// A player.
#[derive(Clone, Copy, Debug, PartialEq, Eq, Structural)]
pub struct PlayerId {
    pub id: i32,
}

/// A map object such as a smoke cloud.
#[derive(Clone, Copy, Debug, PartialEq, Eq, Structural)]
pub struct ObjectId {
    pub id: i32,
}

/// A mesh that a scene node is drawn with.
#[derive(Clone, Copy, Debug, PartialEq, Eq, Structural)]
pub struct MeshId {
    pub id: i32,
}

/// A tile of the hex map.
#[derive(Clone, Copy, Debug, PartialEq, Eq, Structural)]
pub struct MapPos {
    pub x: i32,
    pub y: i32,
}

/// A slot inside a tile.
#[derive(Clone, Copy, Debug, PartialEq, Eq, Structural)]
pub struct SlotId {
    pub id: u8,
}

/// A slot of a given tile: where exactly a unit stands.
#[derive(Clone, Copy, Debug, PartialEq, Eq, Structural)]
pub struct ExactPos {
    pub map_pos: MapPos,
    pub slot_id: SlotId,
}

/// How a unit fired.
#[derive(Clone, Copy, Debug, PartialEq, Eq, Structural)]
pub enum FireMode {
    Active,
    Reactive,
}

/// Whether a unit answers enemy moves with reaction fire.
#[derive(Clone, Copy, Debug, PartialEq, Eq, Structural)]
pub enum ReactionFireMode {
    Normal,
    HoldFire,
}

} // verus!
