//! Carrying a unit on another's back: the node edits that fold a passenger's
//! body into its transporter's node and unfold it again, and a model of the
//! scene's child lists on which what these edits do is stated.

use vstd::prelude::*;
use crate::ids::{NodeId, UnitId};
use crate::nodes::{ChildNode, Placement};

verus! {

/// Where a child node stands along the way its parent faces.
#[derive(Clone, Copy, Debug, PartialEq, Eq, Structural)]
pub enum ChildOffset {
    /// Half a unit behind the parent's centre: the carried passenger.
    Behind,
    /// Half a unit ahead of the parent's centre: a transporter's own body while
    /// it carries.
    Ahead,
    /// On the parent's centre line.
    Centre,
}

/// One edit of the scene's node tree.
#[derive(Clone, Copy, Debug, PartialEq, Eq, Structural)]
pub enum NodeEdit {
    /// Take the first child of node `from`, put it at `offset`, turn it around
    /// if `flip`, and append it to the children of node `to`.
    MoveFirstChild { from: NodeId, to: NodeId, offset: ChildOffset, flip: bool },
    /// Remove the node of a unit.
    RemoveUnit { unit_id: UnitId },
    /// Put the first child of a node at `offset`.
    SetFirstChildOffset { node_id: NodeId, offset: ChildOffset },
    /// Drop the last child of a node.
    PopLastChild { node_id: NodeId },
}

/// The edits that fold the passenger `attached_unit_id` into its transporter's
/// node `transporter_node`: nothing when the passenger has no node of its own
/// any more; else its body moves behind the transporter's, turned around, its
/// own node goes, and the transporter's body steps ahead.
pub open spec fn passenger_fold(
    transporter_node: NodeId,
    passenger_node: Option<NodeId>,
    attached_unit_id: UnitId,
) -> Seq<NodeEdit> {
    match passenger_node {
        None => Seq::empty(),
        Some(na) => seq![
            NodeEdit::MoveFirstChild {
                from: na,
                to: transporter_node,
                offset: ChildOffset::Behind,
                flip: true,
            },
            NodeEdit::RemoveUnit { unit_id: attached_unit_id },
            NodeEdit::SetFirstChildOffset { node_id: transporter_node, offset: ChildOffset::Ahead },
        ],
    }
}

/// The edits that unfold the passenger from its transporter's node
/// `transporter_node`: the transporter's body steps back to the centre and the
/// carried body, its last child, is dropped.
pub open spec fn passenger_unfold(transporter_node: NodeId) -> Seq<NodeEdit> {
    seq![
        NodeEdit::SetFirstChildOffset { node_id: transporter_node, offset: ChildOffset::Centre },
        NodeEdit::PopLastChild { node_id: transporter_node },
    ]
}

/// The edits that fold a passenger into its transporter's node
/// `transporter_node`, `passenger_node` being the passenger's own node if it
/// still has one.
pub fn passenger_fold_edits(
    transporter_node: NodeId,
    passenger_node: Option<NodeId>,
    attached_unit_id: UnitId,
) -> (edits: Vec<NodeEdit>)
    ensures
        edits@ == passenger_fold(transporter_node, passenger_node, attached_unit_id),
{
    let mut edits: Vec<NodeEdit> = Vec::new();
    if let Some(na) = passenger_node {
        edits.push(
            NodeEdit::MoveFirstChild {
                from: na,
                to: transporter_node,
                offset: ChildOffset::Behind,
                flip: true,
            },
        );
        edits.push(NodeEdit::RemoveUnit { unit_id: attached_unit_id });
        edits.push(
            NodeEdit::SetFirstChildOffset { node_id: transporter_node, offset: ChildOffset::Ahead },
        );
    }
    assert(edits@ =~= passenger_fold(transporter_node, passenger_node, attached_unit_id));
    edits
}

/// The edits that unfold the passenger from the transporter's node
/// `transporter_node`.
pub fn passenger_unfold_edits(transporter_node: NodeId) -> (edits: Vec<NodeEdit>)
    ensures
        edits@ == passenger_unfold(transporter_node),
{
    let mut edits: Vec<NodeEdit> = Vec::new();
    edits.push(
        NodeEdit::SetFirstChildOffset { node_id: transporter_node, offset: ChildOffset::Centre },
    );
    edits.push(NodeEdit::PopLastChild { node_id: transporter_node });
    edits
}

/// A child node in the model: what it shows, where it was put along its
/// parent's facing (`None`: where its placement puts it), and whether it is
/// turned around.
pub struct ModelChild {
    pub node: ChildNode,
    pub shift: Option<ChildOffset>,
    pub flipped: bool,
}

/// The scene as the passenger edits see it: the children of each node and the
/// node of each unit.
pub struct SceneModel {
    pub children: Map<NodeId, Seq<ModelChild>>,
    pub unit_nodes: Map<UnitId, NodeId>,
}

/// Where a child stands along its parent's facing, when that is one of the
/// named offsets: a shifted child where it was put, an unshifted one in the
/// centre if its placement is the centre.
pub open spec fn standing(c: ModelChild) -> Option<ChildOffset> {
    match c.shift {
        Some(o) => Some(o),
        None => if c.node.placement == Placement::Center {
            Some(ChildOffset::Centre)
        } else {
            None
        },
    }
}

/// Two children look the same: same node, same standing, same turn.
pub open spec fn same_child(a: ModelChild, b: ModelChild) -> bool {
    a.node == b.node && standing(a) == standing(b) && a.flipped == b.flipped
}

/// What one edit does to the model.
pub open spec fn apply_edit(s: SceneModel, e: NodeEdit) -> SceneModel {
    match e {
        NodeEdit::MoveFirstChild { from, to, offset, flip } => {
            let c = s.children[from][0];
            let moved = ModelChild { node: c.node, shift: Some(offset), flipped: c.flipped != flip };
            SceneModel {
                children: s.children.insert(from, s.children[from].drop_first()).insert(
                    to,
                    s.children[to].push(moved),
                ),
                unit_nodes: s.unit_nodes,
            }
        },
        NodeEdit::RemoveUnit { unit_id } => if s.unit_nodes.contains_key(unit_id) {
            SceneModel {
                children: s.children.remove(s.unit_nodes[unit_id]),
                unit_nodes: s.unit_nodes.remove(unit_id),
            }
        } else {
            s
        },
        NodeEdit::SetFirstChildOffset { node_id, offset } => {
            let c = s.children[node_id][0];
            SceneModel {
                children: s.children.insert(
                    node_id,
                    s.children[node_id].update(
                        0,
                        ModelChild { node: c.node, shift: Some(offset), flipped: c.flipped },
                    ),
                ),
                unit_nodes: s.unit_nodes,
            }
        },
        NodeEdit::PopLastChild { node_id } => SceneModel {
            children: s.children.insert(node_id, s.children[node_id].drop_last()),
            unit_nodes: s.unit_nodes,
        },
    }
}

/// What a sequence of edits does to the model, in order.
pub open spec fn apply_edits(s: SceneModel, edits: Seq<NodeEdit>) -> SceneModel
    decreases edits.len(),
{
    if edits.len() == 0 {
        s
    } else {
        apply_edits(apply_edit(s, edits[0]), edits.drop_first())
    }
}

/// The node of a unit, if it has one.
pub open spec fn node_of(s: SceneModel, unit_id: UnitId) -> Option<NodeId> {
    if s.unit_nodes.contains_key(unit_id) {
        Some(s.unit_nodes[unit_id])
    } else {
        None
    }
}

/// Folding `attached_unit_id` into the node of `transporter_id`, the nodes
/// being looked up in the scene as the fold does.
pub open spec fn fold_scene(s: SceneModel, transporter_id: UnitId, attached_unit_id: UnitId) -> SceneModel {
    apply_edits(
        s,
        passenger_fold(s.unit_nodes[transporter_id], node_of(s, attached_unit_id), attached_unit_id),
    )
}

/// The scene is one the fold can work on: the transporter has a node with a
/// child, and the passenger, if it has a node of its own, has another one with
/// a child (its body).
pub open spec fn fold_ready(s: SceneModel, transporter_id: UnitId, attached_unit_id: UnitId) -> bool {
    &&& transporter_id != attached_unit_id
    &&& s.unit_nodes.contains_key(transporter_id)
    &&& s.children.contains_key(s.unit_nodes[transporter_id])
    &&& s.children[s.unit_nodes[transporter_id]].len() >= 1
    &&& s.unit_nodes.contains_key(attached_unit_id) ==> {
        &&& s.unit_nodes[attached_unit_id] != s.unit_nodes[transporter_id]
        &&& s.children.contains_key(s.unit_nodes[attached_unit_id])
        &&& s.children[s.unit_nodes[attached_unit_id]].len() >= 1
    }
}

proof fn lemma_apply_two(s: SceneModel, e0: NodeEdit, e1: NodeEdit)
    ensures
        apply_edits(s, seq![e0, e1]) == apply_edit(apply_edit(s, e0), e1),
{
    assert(seq![e0, e1].drop_first() =~= seq![e1]);
    assert(seq![e1].drop_first() =~= Seq::<NodeEdit>::empty());
    assert(apply_edits(apply_edit(apply_edit(s, e0), e1), Seq::<NodeEdit>::empty()) == apply_edit(
        apply_edit(s, e0),
        e1,
    ));
    assert(apply_edits(apply_edit(s, e0), seq![e1]) == apply_edit(apply_edit(s, e0), e1));
}

proof fn lemma_apply_three(s: SceneModel, e0: NodeEdit, e1: NodeEdit, e2: NodeEdit)
    ensures
        apply_edits(s, seq![e0, e1, e2]) == apply_edit(apply_edit(apply_edit(s, e0), e1), e2),
{
    assert(seq![e0, e1, e2].drop_first() =~= seq![e1, e2]);
    lemma_apply_two(apply_edit(s, e0), e1, e2);
}

/// Folding a passenger in is idempotent: its own node is gone after the first
/// fold, so a second one changes nothing.
pub proof fn lemma_fold_idempotent(s: SceneModel, transporter_id: UnitId, attached_unit_id: UnitId)
    requires
        fold_ready(s, transporter_id, attached_unit_id),
    ensures
        fold_scene(fold_scene(s, transporter_id, attached_unit_id), transporter_id, attached_unit_id)
            == fold_scene(s, transporter_id, attached_unit_id),
{
    let nt = s.unit_nodes[transporter_id];
    let s1 = fold_scene(s, transporter_id, attached_unit_id);
    match node_of(s, attached_unit_id) {
        None => {
            assert(passenger_fold(nt, None, attached_unit_id) =~= Seq::<NodeEdit>::empty());
            assert(s1 == s);
        },
        Some(na) => {
            let edits = passenger_fold(nt, Some(na), attached_unit_id);
            lemma_apply_three(s, edits[0], edits[1], edits[2]);
            assert(edits =~= seq![edits[0], edits[1], edits[2]]);
            assert(!s1.unit_nodes.contains_key(attached_unit_id));
            assert(s1.unit_nodes[transporter_id] == nt);
        },
    }
    assert(passenger_fold(s1.unit_nodes[transporter_id], node_of(s1, attached_unit_id), attached_unit_id)
        =~= Seq::<NodeEdit>::empty());
}

/// Unfolding undoes folding: when the transporter's body stood in the centre
/// before its passenger was folded in, unfolding leaves the transporter's node
/// with the children it had, each looking as it did.
pub proof fn lemma_unfold_undoes_fold(s: SceneModel, transporter_id: UnitId, attached_unit_id: UnitId)
    requires
        fold_ready(s, transporter_id, attached_unit_id),
        s.unit_nodes.contains_key(attached_unit_id),
        standing(s.children[s.unit_nodes[transporter_id]][0]) == Some(ChildOffset::Centre),
    ensures
        ({
            let nt = s.unit_nodes[transporter_id];
            let after = apply_edits(
                fold_scene(s, transporter_id, attached_unit_id),
                passenger_unfold(nt),
            ).children[nt];
            &&& after.len() == s.children[nt].len()
            &&& forall|i: int| 0 <= i < after.len() ==> same_child(#[trigger] after[i], s.children[nt][i])
        }),
{
    let nt = s.unit_nodes[transporter_id];
    let na = s.unit_nodes[attached_unit_id];
    let edits = passenger_fold(nt, Some(na), attached_unit_id);
    let a = apply_edit(s, edits[0]);
    let b = apply_edit(a, edits[1]);
    let c = apply_edit(b, edits[2]);
    lemma_apply_three(s, edits[0], edits[1], edits[2]);
    assert(edits =~= seq![edits[0], edits[1], edits[2]]);
    assert(fold_scene(s, transporter_id, attached_unit_id) == c);
    let un = passenger_unfold(nt);
    let d = apply_edit(c, un[0]);
    let e = apply_edit(d, un[1]);
    lemma_apply_two(c, un[0], un[1]);
    assert(un =~= seq![un[0], un[1]]);
    assert(apply_edits(c, un) == e);
    assert(a.children[nt] =~= s.children[nt].push(
        ModelChild { node: s.children[na][0].node, shift: Some(ChildOffset::Behind), flipped: s.children[na][0].flipped != true },
    ));
    assert(b.children[nt] == a.children[nt]);
    let after = e.children[nt];
    assert(after.len() == s.children[nt].len());
    assert forall|i: int| 0 <= i < after.len() implies same_child(#[trigger] after[i], s.children[nt][i]) by {
        if i == 0 {
        } else {
            assert(after[i] == s.children[nt][i]);
        }
    }
}

} // verus!
