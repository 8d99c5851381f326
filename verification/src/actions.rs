//! The two actions that every unit creation plays: showing the new unit and
//! moving a node.

use vstd::prelude::*;
use crate::effects::{Anchor, Effect, Pace};
use crate::ids::{ExactPos, MeshId, NodeId};
use crate::nodes::UnitInfo;

verus! {

/// Moves the scene node `node_id` from `from` to `to` at `pace`. When it
/// begins, the move restarts from where the node stands then.
#[derive(Clone, Copy, Debug, PartialEq, Eq, Structural)]
pub struct ActionMove {
    pub node_id: NodeId,
    pub from: Anchor,
    pub to: Anchor,
    pub pace: Pace,
}

impl ActionMove {
    /// A move of `node_id` from `from` to `to` at `pace`.
    pub fn new_from(node_id: NodeId, from: Anchor, to: Anchor, pace: Pace) -> (a: Self)
        ensures
            a == (ActionMove { node_id, from, to, pace }),
    {
        ActionMove { node_id, from, to, pace }
    }

    /// A move of the unit node `node_id` from where it stands to the slot
    /// `destination`, at the pace of the unit type given.
    pub fn new(node_id: NodeId, destination: ExactPos) -> (a: Self)
        ensures
            a == (ActionMove {
                node_id,
                from: Anchor::Node(node_id),
                to: Anchor::Slot(destination),
                pace: Pace::Given,
            }),
    {
        ActionMove::new_from(node_id, Anchor::Node(node_id), Anchor::Slot(destination), Pace::Given)
    }
}

/// Shows a newly created unit under a node id set aside for it.
#[derive(Clone, Copy, Debug, PartialEq, Eq, Structural)]
pub struct ActionCreate {
    pub unit_info: UnitInfo,
    pub mesh_id: MeshId,
    pub marker_mesh_id: MeshId,
    pub pos: Anchor,
    pub node_id: NodeId,
}

impl ActionCreate {
    /// What the action does when it begins: add the unit's node.
    pub fn begin(&self) -> (effects: Vec<Effect>)
        ensures
            effects@ == seq![
                Effect::ShowUnit {
                    node_id: self.node_id,
                    unit: self.unit_info,
                    at: self.pos,
                    mesh_id: self.mesh_id,
                    marker_mesh_id: self.marker_mesh_id,
                },
            ],
    {
        let mut effects: Vec<Effect> = Vec::new();
        effects.push(
            Effect::ShowUnit {
                node_id: self.node_id,
                unit: self.unit_info,
                at: self.pos,
                mesh_id: self.mesh_id,
                marker_mesh_id: self.marker_mesh_id,
            },
        );
        effects
    }
}

/// The actions of a unit's creation, its node being `node_id`: the unit
/// appears half a hex radius below its slot, then rises into it.
pub fn visualize_event_create_unit(
    unit_info: &UnitInfo,
    mesh_id: MeshId,
    marker_mesh_id: MeshId,
    node_id: NodeId,
) -> (actions: (ActionCreate, ActionMove))
    ensures
        actions.0 == (ActionCreate {
            unit_info: *unit_info,
            mesh_id,
            marker_mesh_id,
            pos: Anchor::BelowSlot(unit_info.pos),
            node_id,
        }),
        actions.1 == (ActionMove {
            node_id,
            from: Anchor::BelowSlot(unit_info.pos),
            to: Anchor::Slot(unit_info.pos),
            pace: Pace::Rise,
        }),
{
    let from = Anchor::BelowSlot(unit_info.pos);
    let to = Anchor::Slot(unit_info.pos);
    let create = ActionCreate { pos: from, node_id, unit_info: *unit_info, mesh_id, marker_mesh_id };
    let rise = ActionMove::new_from(node_id, from, to, Pace::Rise);
    (create, rise)
}

} // verus!
