//! What an event asks of the scene and of the map texts, as plain values. The
//! caller carries each effect out in order; world coordinates, rotations and
//! speeds are worked out there from the anchors and paces named here.

use vstd::prelude::*;
use crate::ids::{ExactPos, MapPos, MeshId, NodeId, ObjectId, SectorId, UnitId, UnitTypeId};
use crate::passenger::NodeEdit;
use crate::nodes::UnitInfo;
use crate::text::Message;

verus! {

/// A point of the world, named by what it is tied to.
#[derive(Clone, Copy, Debug, PartialEq, Eq, Structural)]
pub enum Anchor {
    /// The centre of a slot of a tile.
    Slot(ExactPos),
    /// Half a hex radius below the centre of a slot: where a new unit rises from.
    BelowSlot(ExactPos),
    /// Where a scene node stands when the anchor is resolved.
    Node(NodeId),
}

/// How fast a move goes.
#[derive(Clone, Copy, Debug, PartialEq, Eq, Structural)]
pub enum Pace {
    /// The move speed of the unit type whose visual info the event was given.
    Given,
    /// The move speed of the unit type `0`.
    OfType(UnitTypeId),
    /// The slow rise of a unit that was just created.
    Rise,
    /// The flight of a shell.
    Shell,
}

/// The colour a sector is tinted with.
#[derive(Clone, Copy, Debug, PartialEq, Eq, Structural)]
pub enum SectorColor {
    /// Nobody owns the sector.
    Neutral,
    /// The first player owns it.
    FirstPlayer,
    /// The second player owns it.
    SecondPlayer,
}

/// One change to the scene or to the map texts.
#[derive(Clone, Copy, Debug, PartialEq, Eq, Structural)]
pub enum Effect {
    /// Show `message` above the tile `pos`.
    AddText { pos: MapPos, message: Message },
    /// Add the scene node of `unit` under `node_id` at `at`, turned at random,
    /// with the children that `nodes::unit_children` gives.
    ShowUnit { node_id: NodeId, unit: UnitInfo, at: Anchor, mesh_id: MeshId, marker_mesh_id: MeshId },
    /// Fold the node of the unit `attached_unit_id` into the node of the
    /// transporter `transporter_id` with the edits of
    /// `passenger::passenger_fold_edits`, the nodes being those the two units
    /// have when the effect is carried out.
    AttachPassenger { transporter_id: UnitId, attached_unit_id: UnitId },
    /// Remove the scene node of a unit.
    RemoveUnit { unit_id: UnitId },
    /// Put the node `node_id` at `at`.
    Place { node_id: NodeId, at: Anchor },
    /// Turn the node `node_id` to face along the way from `from` to `to`.
    Turn { node_id: NodeId, from: Anchor, to: Anchor },
    /// An edit of the node tree.
    Edit(NodeEdit),
    /// Tint the node of a sector.
    SetSectorColor { sector_id: SectorId, color: SectorColor },
    /// Add layer `layer` of the smoke cloud `object_id` above tile `pos`; each
    /// layer stands higher than the one before and is turned further at random.
    AddSmoke { object_id: ObjectId, pos: MapPos, mesh_id: MeshId, layer: u8 },
    /// Add a shell node at `at`, facing along the way from `from` to `at`.
    AddShell { at: Anchor, from: Anchor, mesh_id: MeshId },
}

} // verus!
