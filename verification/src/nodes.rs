//! The scene node a unit is shown with: its children, where they stand, what
//! they are drawn with and in which colour.

use vstd::prelude::*;
use crate::ids::{ExactPos, MeshId, PlayerId, UnitId, UnitTypeId};

verus! {

/// What the visualizer reads of a unit of the game state.
#[derive(Clone, Copy, Debug, PartialEq, Eq, Structural)]
pub struct UnitInfo {
    pub id: UnitId,
    pub pos: ExactPos,
    pub player_id: PlayerId,
    pub type_id: UnitTypeId,
    /// How many vehicles or squads the unit consists of.
    pub count: i32,
    pub is_alive: bool,
    /// The unit this one tows or carries on its back.
    pub attached_unit_id: Option<UnitId>,
}

/// Where a child node stands relative to the unit's node.
#[derive(Clone, Copy, Debug, PartialEq, Eq, Structural)]
pub enum Placement {
    /// At the unit's own position.
    Center,
    /// At vertex `index` of a small circle with `count` vertices.
    Circle { count: i32, index: i32 },
    /// Above the tile, at half the hex radius (the player marker).
    AboveHex,
}

/// The colour of a child node.
#[derive(Clone, Copy, Debug, PartialEq, Eq, Structural)]
pub enum NodeColor {
    /// Plain white: a living unit.
    White,
    /// The grey of wrecks: a destroyed unit.
    Wreck,
    /// The colour of a player (the unit's marker).
    Player(PlayerId),
}

/// A child node of a unit's scene node.
#[derive(Clone, Copy, Debug, PartialEq, Eq, Structural)]
pub struct ChildNode {
    pub placement: Placement,
    pub mesh_id: MeshId,
    pub color: NodeColor,
}

/// The colour of a unit's bodies: white while alive, grey once a wreck.
pub open spec fn body_color(is_alive: bool) -> NodeColor {
    if is_alive {
        NodeColor::White
    } else {
        NodeColor::Wreck
    }
}

/// The body node of vertex `i` of a unit of `count` bodies.
pub open spec fn circle_node(count: i32, i: int, mesh_id: MeshId, color: NodeColor) -> ChildNode {
    ChildNode { placement: Placement::Circle { count, index: i as i32 }, mesh_id, color }
}

/// The bodies of a unit: one in the centre for a single body, else one on each
/// vertex of a circle, as many as the unit counts (none for a count below one).
pub open spec fn body_nodes(unit: UnitInfo, mesh_id: MeshId) -> Seq<ChildNode> {
    let color = body_color(unit.is_alive);
    if unit.count == 1 {
        seq![ChildNode { placement: Placement::Center, mesh_id, color }]
    } else {
        Seq::new(
            if unit.count > 0 { unit.count as nat } else { 0 },
            |i: int| circle_node(unit.count, i, mesh_id, color),
        )
    }
}

/// The player marker shown above a living unit.
pub open spec fn marker_node(unit: UnitInfo, marker_mesh_id: MeshId) -> ChildNode {
    ChildNode {
        placement: Placement::AboveHex,
        mesh_id: marker_mesh_id,
        color: NodeColor::Player(unit.player_id),
    }
}

/// All children of a unit's node: its bodies, then, for a living unit, its
/// player marker.
pub open spec fn unit_children(unit: UnitInfo, mesh_id: MeshId, marker_mesh_id: MeshId) -> Seq<
    ChildNode,
> {
    if unit.is_alive {
        body_nodes(unit, mesh_id).push(marker_node(unit, marker_mesh_id))
    } else {
        body_nodes(unit, mesh_id)
    }
}

/// The body nodes of `unit`, drawn with `mesh_id`.
pub fn get_unit_scene_nodes(unit: &UnitInfo, mesh_id: MeshId) -> (nodes: Vec<ChildNode>)
    ensures
        nodes@ == body_nodes(*unit, mesh_id),
{
    let color = if unit.is_alive {
        NodeColor::White
    } else {
        NodeColor::Wreck
    };
    let mut nodes: Vec<ChildNode> = Vec::new();
    if unit.count == 1 {
        nodes.push(ChildNode { placement: Placement::Center, mesh_id, color });
        nodes
    } else {
        let count = unit.count;
        let mut i: i32 = 0;
        while i < count
            invariant
                0 <= i,
                count == unit.count,
                count != 1,
                color == body_color(unit.is_alive),
                i <= count || count <= 0,
                count <= 0 ==> i == 0,
                nodes@.len() == i,
                forall|j: int| 0 <= j < i ==> nodes@[j] == circle_node(count, j, mesh_id, color),
            decreases count - i,
        {
            nodes.push(ChildNode { placement: Placement::Circle { count, index: i }, mesh_id, color });
            i = i + 1;
        }
        assert(nodes@ =~= body_nodes(*unit, mesh_id));
        nodes
    }
}

/// The children of the scene node that shows `unit`: its bodies drawn with
/// `mesh_id` and, while it lives, the player marker drawn with `marker_mesh_id`.
pub fn unit_node_children(unit: &UnitInfo, mesh_id: MeshId, marker_mesh_id: MeshId) -> (nodes: Vec<
    ChildNode,
>)
    ensures
        nodes@ == unit_children(*unit, mesh_id, marker_mesh_id),
{
    let mut nodes = get_unit_scene_nodes(unit, mesh_id);
    if unit.is_alive {
        nodes.push(
            ChildNode {
                placement: Placement::AboveHex,
                mesh_id: marker_mesh_id,
                color: NodeColor::Player(unit.player_id),
            },
        );
    }
    nodes
}

/// A unit of `count` bodies, `count` at least one, is shown with exactly
/// `count` body nodes drawn with its mesh: a single body in the centre, or
/// body `i` on vertex `i` of a circle of `count` vertices. All bodies are
/// white while the unit lives and grey once it is a wreck. A unit of no bodies
/// (a count below one) gets none.
pub proof fn lemma_body_nodes_count_and_color(unit: UnitInfo, mesh_id: MeshId)
    ensures
        unit.count >= 1 ==> body_nodes(unit, mesh_id).len() == unit.count,
        unit.count < 1 ==> body_nodes(unit, mesh_id).len() == 0,
        unit.count == 1 ==> body_nodes(unit, mesh_id)[0].placement == Placement::Center,
        forall|i: int|
            0 <= i < body_nodes(unit, mesh_id).len() ==> {
                &&& unit.count != 1 ==> (#[trigger] body_nodes(unit, mesh_id)[i]).placement
                    == (Placement::Circle { count: unit.count, index: i as i32 })
                &&& body_nodes(unit, mesh_id)[i].mesh_id == mesh_id
                &&& unit.is_alive ==> body_nodes(unit, mesh_id)[i].color == NodeColor::White
                &&& !unit.is_alive ==> body_nodes(unit, mesh_id)[i].color == NodeColor::Wreck
            },
{
}

/// A unit's node has its bodies first, and one child more while the unit
/// lives: last, above the hex, the marker drawn with the marker mesh in the
/// colour of the unit's own player. A wreck has its bodies only.
pub proof fn lemma_marker_iff_alive(unit: UnitInfo, mesh_id: MeshId, marker_mesh_id: MeshId)
    ensures
        unit_children(unit, mesh_id, marker_mesh_id).len() == body_nodes(unit, mesh_id).len() + (
        if unit.is_alive {
            1int
        } else {
            0int
        }),
        unit.is_alive ==> unit_children(unit, mesh_id, marker_mesh_id).last() == (ChildNode {
            placement: Placement::AboveHex,
            mesh_id: marker_mesh_id,
            color: NodeColor::Player(unit.player_id),
        }),
        forall|i: int|
            0 <= i < body_nodes(unit, mesh_id).len() ==> #[trigger] unit_children(
                unit,
                mesh_id,
                marker_mesh_id,
            )[i] == body_nodes(unit, mesh_id)[i],
{
}

} // verus!
