//! The visualizers of the events that show units, move them in and out of
//! transporters, change sectors and lay smoke: what each one does to the scene
//! and the map texts when it is made, and the data it keeps.

use vstd::prelude::*;
use crate::effects::{Anchor, Effect, Pace, SectorColor};
use crate::passenger::{passenger_unfold_edits, ChildOffset, NodeEdit};
use crate::ids::{ExactPos, MapPos, MeshId, NodeId, ObjectId, PlayerId, ReactionFireMode, SectorId, UnitId};
use crate::nodes::UnitInfo;
use crate::text::Message;

verus! {

/// The passenger fix for a unit that carries another: its node goes under the
/// unit's node.
pub open spec fn attach_effect(unit: UnitInfo) -> Seq<Effect> {
    match unit.attached_unit_id {
        Some(attached) => seq![
            Effect::AttachPassenger { transporter_id: unit.id, attached_unit_id: attached },
        ],
        None => Seq::empty(),
    }
}

/// The passenger fixes for all carrying units of `units`, in their order.
pub open spec fn attach_effects(units: Seq<UnitInfo>) -> Seq<Effect>
    decreases units.len(),
{
    if units.len() == 0 {
        Seq::empty()
    } else {
        attach_effects(units.drop_last()) + attach_effect(units.last())
    }
}

/// Every passenger fix made for the units of a tile is the fix of one of those
/// units and of the very unit it carries.
pub proof fn lemma_attach_effects_sound(units: Seq<UnitInfo>, k: int)
    requires
        0 <= k < attach_effects(units).len(),
    ensures
        exists|i: int|
            0 <= i < units.len() && #[trigger] units[i].attached_unit_id.is_some()
                && attach_effects(units)[k] == (Effect::AttachPassenger {
                transporter_id: units[i].id,
                attached_unit_id: units[i].attached_unit_id.unwrap(),
            }),
    decreases units.len(),
{
    let init = units.drop_last();
    let last = units.last();
    if k < attach_effects(init).len() {
        lemma_attach_effects_sound(init, k);
        let i = choose|i: int|
            0 <= i < init.len() && #[trigger] init[i].attached_unit_id.is_some()
                && attach_effects(init)[k] == (Effect::AttachPassenger {
                transporter_id: init[i].id,
                attached_unit_id: init[i].attached_unit_id.unwrap(),
            });
        assert(units[i] == init[i]);
    } else {
        assert(units[units.len() - 1] == last);
        assert(units[units.len() - 1].attached_unit_id.is_some());
    }
}

/// Every unit of a tile that carries another gets its passenger fix, and
/// there are as many fixes as carrying units.
pub proof fn lemma_attach_effects_complete(units: Seq<UnitInfo>)
    ensures
        forall|i: int|
            0 <= i < units.len() && (#[trigger] units[i]).attached_unit_id.is_some()
                ==> attach_effects(units).contains(
                Effect::AttachPassenger {
                    transporter_id: units[i].id,
                    attached_unit_id: units[i].attached_unit_id.unwrap(),
                },
            ),
        attach_effects(units).len() == units.filter(|u: UnitInfo| u.attached_unit_id.is_some()).len(),
    decreases units.len(),
{
    reveal_with_fuel(Seq::filter, 1);
    if units.len() > 0 {
        let init = units.drop_last();
        lemma_attach_effects_complete(init);
        assert forall|i: int|
            0 <= i < units.len() && (#[trigger] units[i]).attached_unit_id.is_some()
                implies attach_effects(units).contains(
                Effect::AttachPassenger {
                    transporter_id: units[i].id,
                    attached_unit_id: units[i].attached_unit_id.unwrap(),
                },
            ) by {
            let e = Effect::AttachPassenger {
                transporter_id: units[i].id,
                attached_unit_id: units[i].attached_unit_id.unwrap(),
            };
            let whole = attach_effects(units);
            if i < init.len() {
                assert(init[i] == units[i]);
                let k = choose|k: int| 0 <= k < attach_effects(init).len() && attach_effects(init)[k] == e;
                assert(whole[k] == e);
            } else {
                assert(units.last() == units[i]);
                assert(whole[whole.len() - 1] == e);
            }
        }
    }
}

/// The effects of showing a spotted unit: "spotted" above its tile, its node
/// added under `node_id` at its slot, then the passenger fixes for it and for
/// every unit of its tile, `units_at`.
pub open spec fn show_unit_effects(
    unit_info: UnitInfo,
    node_id: NodeId,
    mesh_id: MeshId,
    marker_mesh_id: MeshId,
    units_at: Seq<UnitInfo>,
) -> Seq<Effect> {
    seq![
        Effect::AddText { pos: unit_info.pos.map_pos, message: Message::Spotted },
        Effect::ShowUnit {
            node_id,
            unit: unit_info,
            at: Anchor::Slot(unit_info.pos),
            mesh_id,
            marker_mesh_id,
        },
    ] + attach_effect(unit_info) + attach_effects(units_at)
}

/// Showing a spotted unit says "spotted" above its tile, then adds its node
/// at its slot; then comes its own passenger fix if it carries a unit, and
/// every unit of its tile that carries one gets its fix, whatever the spotted
/// unit carries. Every fix made is that of the spotted unit or of a unit of the
/// tile, and there is one per carrying unit.
pub proof fn lemma_show_unit_effects(
    unit_info: UnitInfo,
    node_id: NodeId,
    mesh_id: MeshId,
    marker_mesh_id: MeshId,
    units_at: Seq<UnitInfo>,
)
    ensures
        ({
            let e = show_unit_effects(unit_info, node_id, mesh_id, marker_mesh_id, units_at);
            let own = if unit_info.attached_unit_id.is_some() { 1int } else { 0int };
            &&& e[0] == (Effect::AddText { pos: unit_info.pos.map_pos, message: Message::Spotted })
            &&& e[1] == (Effect::ShowUnit {
                node_id,
                unit: unit_info,
                at: Anchor::Slot(unit_info.pos),
                mesh_id,
                marker_mesh_id,
            })
            &&& unit_info.attached_unit_id.is_some() ==> e[2] == (Effect::AttachPassenger {
                transporter_id: unit_info.id,
                attached_unit_id: unit_info.attached_unit_id.unwrap(),
            })
            &&& e.len() == 2 + own + units_at.filter(|u: UnitInfo| u.attached_unit_id.is_some()).len()
            &&& forall|i: int|
                0 <= i < units_at.len() && (#[trigger] units_at[i]).attached_unit_id.is_some()
                    ==> e.subrange(2 + own, e.len() as int).contains(
                    Effect::AttachPassenger {
                        transporter_id: units_at[i].id,
                        attached_unit_id: units_at[i].attached_unit_id.unwrap(),
                    },
                )
            &&& forall|k: int|
                2 + own <= k < e.len() ==> exists|i: int|
                    0 <= i < units_at.len() && #[trigger] units_at[i].attached_unit_id.is_some()
                        && #[trigger] e[k] == (Effect::AttachPassenger {
                        transporter_id: units_at[i].id,
                        attached_unit_id: units_at[i].attached_unit_id.unwrap(),
                    })
        }),
{
    let e = show_unit_effects(unit_info, node_id, mesh_id, marker_mesh_id, units_at);
    let own = if unit_info.attached_unit_id.is_some() { 1int } else { 0int };
    let head = seq![
        Effect::AddText { pos: unit_info.pos.map_pos, message: Message::Spotted },
        Effect::ShowUnit {
            node_id,
            unit: unit_info,
            at: Anchor::Slot(unit_info.pos),
            mesh_id,
            marker_mesh_id,
        },
    ] + attach_effect(unit_info);
    let tail = attach_effects(units_at);
    assert(e == head + tail);
    assert(head.len() == 2 + own);
    assert(e.subrange(2 + own, e.len() as int) =~= tail);
    lemma_attach_effects_complete(units_at);
    assert forall|k: int| 2 + own <= k < e.len() implies exists|i: int|
        0 <= i < units_at.len() && #[trigger] units_at[i].attached_unit_id.is_some() && #[trigger] e[k]
            == (Effect::AttachPassenger {
            transporter_id: units_at[i].id,
            attached_unit_id: units_at[i].attached_unit_id.unwrap(),
        }) by {
        assert(e[k] == tail[k - (2 + own)]);
        lemma_attach_effects_sound(units_at, k - (2 + own));
    }
}

fn push_attach_effect(effects: &mut Vec<Effect>, unit: &UnitInfo)
    ensures
        final(effects)@ == old(effects)@ + attach_effect(*unit),
{
    if let Some(attached) = unit.attached_unit_id {
        effects.push(Effect::AttachPassenger { transporter_id: unit.id, attached_unit_id: attached });
    }
    assert(effects@ =~= old(effects)@ + attach_effect(*unit));
}

/// The visualizer of a unit that came into sight.
#[derive(Clone, Copy, Debug, PartialEq, Eq, Structural)]
pub struct EventShowUnitVisualizer;

impl EventShowUnitVisualizer {
    /// Shows `unit_info` under the new node `node_id`; `units_at` are the units
    /// that the game state holds on its tile.
    pub fn new(
        unit_info: &UnitInfo,
        node_id: NodeId,
        mesh_id: MeshId,
        marker_mesh_id: MeshId,
        units_at: &Vec<UnitInfo>,
    ) -> (r: (Self, Vec<Effect>))
        ensures
            r.1@ == show_unit_effects(*unit_info, node_id, mesh_id, marker_mesh_id, units_at@),
    {
        let mut effects: Vec<Effect> = Vec::new();
        effects.push(Effect::AddText { pos: unit_info.pos.map_pos, message: Message::Spotted });
        effects.push(
            Effect::ShowUnit {
                node_id,
                unit: *unit_info,
                at: Anchor::Slot(unit_info.pos),
                mesh_id,
                marker_mesh_id,
            },
        );
        push_attach_effect(&mut effects, unit_info);
        let ghost head = effects@;
        let n = units_at.len();
        let mut i: usize = 0;
        while i < n
            invariant
                n == units_at@.len(),
                i <= n,
                effects@ == head + attach_effects(units_at@.take(i as int)),
            decreases n - i,
        {
            push_attach_effect(&mut effects, &units_at[i]);
            assert(units_at@.take(i + 1).drop_last() =~= units_at@.take(i as int));
            assert(effects@ =~= head + attach_effects(units_at@.take(i + 1)));
            i = i + 1;
        }
        assert(units_at@.take(n as int) =~= units_at@);
        assert(effects@ =~= show_unit_effects(
            *unit_info,
            node_id,
            mesh_id,
            marker_mesh_id,
            units_at@,
        ));
        (EventShowUnitVisualizer, effects)
    }
}

/// The visualizer of a unit that went out of sight.
#[derive(Clone, Copy, Debug, PartialEq, Eq, Structural)]
pub struct EventHideUnitVisualizer;

impl EventHideUnitVisualizer {
    /// Hides `unit_id`; `node_map_pos` is the tile under its scene node, or
    /// `None` when it has no node of its own (a passenger). A unit with a node
    /// gets "lost" above that tile and loses its node; one without is left be.
    pub fn new(unit_id: UnitId, node_map_pos: Option<MapPos>) -> (r: (Self, Vec<Effect>))
        ensures
            r.1@ == match node_map_pos {
                Some(pos) => seq![
                    Effect::AddText { pos, message: Message::Lost },
                    Effect::RemoveUnit { unit_id },
                ],
                None => Seq::<Effect>::empty(),
            },
    {
        let mut effects: Vec<Effect> = Vec::new();
        if let Some(pos) = node_map_pos {
            effects.push(Effect::AddText { pos, message: Message::Lost });
            effects.push(Effect::RemoveUnit { unit_id });
        }
        assert(effects@ =~= match node_map_pos {
            Some(pos) => seq![
                Effect::AddText { pos, message: Message::Lost },
                Effect::RemoveUnit { unit_id },
            ],
            None => Seq::<Effect>::empty(),
        });
        (EventHideUnitVisualizer, effects)
    }
}

/// The visualizer of a unit leaving its transporter: its node moves from the
/// transporter's slot to its own.
#[derive(Clone, Copy, Debug, PartialEq, Eq, Structural)]
pub struct EventUnloadUnitVisualizer {
    pub node_id: NodeId,
    pub from: Anchor,
    pub to: Anchor,
    pub pace: Pace,
}

impl EventUnloadUnitVisualizer {
    /// Unloads `unit_info` from a transporter standing at `transporter_pos`,
    /// the unit's node being added under `node_id`: "unloaded" above the unit's
    /// tile, its node added at its slot, then put on the transporter's slot and
    /// turned towards its own; it then moves there at the pace given.
    pub fn new(
        unit_info: &UnitInfo,
        node_id: NodeId,
        mesh_id: MeshId,
        marker_mesh_id: MeshId,
        transporter_pos: ExactPos,
    ) -> (r: (Self, Vec<Effect>))
        ensures
            r.0 == (EventUnloadUnitVisualizer {
                node_id,
                from: Anchor::Slot(transporter_pos),
                to: Anchor::Slot(unit_info.pos),
                pace: Pace::Given,
            }),
            r.1@ == seq![
                Effect::AddText { pos: unit_info.pos.map_pos, message: Message::Unloaded },
                Effect::ShowUnit {
                    node_id,
                    unit: *unit_info,
                    at: Anchor::Slot(unit_info.pos),
                    mesh_id,
                    marker_mesh_id,
                },
                Effect::Place { node_id, at: Anchor::Slot(transporter_pos) },
                Effect::Turn {
                    node_id,
                    from: Anchor::Slot(transporter_pos),
                    to: Anchor::Slot(unit_info.pos),
                },
            ],
    {
        let to = Anchor::Slot(unit_info.pos);
        let from = Anchor::Slot(transporter_pos);
        let mut effects: Vec<Effect> = Vec::new();
        effects.push(Effect::AddText { pos: unit_info.pos.map_pos, message: Message::Unloaded });
        effects.push(Effect::ShowUnit { node_id, unit: *unit_info, at: to, mesh_id, marker_mesh_id });
        effects.push(Effect::Place { node_id, at: from });
        effects.push(Effect::Turn { node_id, from, to });
        (EventUnloadUnitVisualizer { node_id, from, to, pace: Pace::Given }, effects)
    }
}

/// The visualizer of a unit boarding a transporter: it moves from its slot to
/// the transporter's, then its node goes.
#[derive(Clone, Copy, Debug, PartialEq, Eq, Structural)]
pub struct EventLoadUnitVisualizer {
    pub passenger_id: UnitId,
    pub from: Anchor,
    pub to: Anchor,
    pub pace: Pace,
}

impl EventLoadUnitVisualizer {
    /// Loads `unit_id`, standing at `unit_pos` with node `passenger_node_id`,
    /// into a transporter at `transporter_pos`: "loaded" above the unit's tile
    /// and its node turned towards the transporter.
    pub fn new(
        unit_id: UnitId,
        unit_pos: ExactPos,
        passenger_node_id: NodeId,
        transporter_pos: ExactPos,
    ) -> (r: (Self, Vec<Effect>))
        ensures
            r.0 == (EventLoadUnitVisualizer {
                passenger_id: unit_id,
                from: Anchor::Slot(unit_pos),
                to: Anchor::Slot(transporter_pos),
                pace: Pace::Given,
            }),
            r.1@ == seq![
                Effect::AddText { pos: unit_pos.map_pos, message: Message::Loaded },
                Effect::Turn {
                    node_id: passenger_node_id,
                    from: Anchor::Slot(unit_pos),
                    to: Anchor::Slot(transporter_pos),
                },
            ],
    {
        let from = Anchor::Slot(unit_pos);
        let to = Anchor::Slot(transporter_pos);
        let mut effects: Vec<Effect> = Vec::new();
        effects.push(Effect::AddText { pos: unit_pos.map_pos, message: Message::Loaded });
        effects.push(Effect::Turn { node_id: passenger_node_id, from, to });
        (EventLoadUnitVisualizer { passenger_id: unit_id, from, to, pace: Pace::Given }, effects)
    }

    /// At the end of the move the passenger's node is removed.
    pub fn end(&self) -> (effects: Vec<Effect>)
        ensures
            effects@ == seq![Effect::RemoveUnit { unit_id: self.passenger_id }],
    {
        let mut effects: Vec<Effect> = Vec::new();
        effects.push(Effect::RemoveUnit { unit_id: self.passenger_id });
        effects
    }
}

/// The text shown for a reaction fire mode.
pub open spec fn reaction_fire_mode_message(mode: ReactionFireMode) -> Message {
    match mode {
        ReactionFireMode::Normal => Message::NormalFireMode,
        ReactionFireMode::HoldFire => Message::HoldFire,
    }
}

/// The visualizer of a unit changing its reaction fire mode.
#[derive(Clone, Copy, Debug, PartialEq, Eq, Structural)]
pub struct EventSetReactionFireModeVisualizer;

impl EventSetReactionFireModeVisualizer {
    /// Shows the new `mode` above the unit's tile `unit_pos`.
    pub fn new(unit_pos: MapPos, mode: ReactionFireMode) -> (r: (Self, Vec<Effect>))
        ensures
            r.1@ == seq![
                Effect::AddText { pos: unit_pos, message: reaction_fire_mode_message(mode) },
            ],
    {
        let message = match mode {
            ReactionFireMode::Normal => Message::NormalFireMode,
            ReactionFireMode::HoldFire => Message::HoldFire,
        };
        let mut effects: Vec<Effect> = Vec::new();
        effects.push(Effect::AddText { pos: unit_pos, message });
        (EventSetReactionFireModeVisualizer, effects)
    }
}

/// An owner a sector can be shown for: nobody, or one of the two players.
pub open spec fn is_shown_owner(owner_id: Option<PlayerId>) -> bool {
    match owner_id {
        Some(owner) => owner.id == 0 || owner.id == 1,
        None => true,
    }
}

/// The tint of a sector owned by `owner_id`.
pub open spec fn sector_tint(owner_id: Option<PlayerId>) -> SectorColor {
    match owner_id {
        Some(owner) => if owner.id == 0 {
            SectorColor::FirstPlayer
        } else {
            SectorColor::SecondPlayer
        },
        None => SectorColor::Neutral,
    }
}

/// The tint of a sector owned by `owner_id`, one of the two players or nobody.
pub fn sector_color(owner_id: Option<PlayerId>) -> (color: SectorColor)
    requires
        is_shown_owner(owner_id),
    ensures
        color == sector_tint(owner_id),
{
    match owner_id {
        None => SectorColor::Neutral,
        Some(owner) => if owner.id == 0 {
            SectorColor::FirstPlayer
        } else {
            SectorColor::SecondPlayer
        },
    }
}

/// The visualizer of a sector changing hands.
#[derive(Clone, Copy, Debug, PartialEq, Eq, Structural)]
pub struct EventSectorOwnerChangedVisualizer;

impl EventSectorOwnerChangedVisualizer {
    /// Tints sector `sector_id` for its new owner `owner_id` and says so above
    /// the sector's centre tile `sector_center`.
    pub fn new(sector_id: SectorId, owner_id: Option<PlayerId>, sector_center: MapPos) -> (r: (
        Self,
        Vec<Effect>,
    ))
        requires
            is_shown_owner(owner_id),
        ensures
            r.1@ == seq![
                Effect::SetSectorColor { sector_id, color: sector_tint(owner_id) },
                Effect::AddText {
                    pos: sector_center,
                    message: Message::SectorOwnerChanged { sector_id, owner_id },
                },
            ],
    {
        let color = sector_color(owner_id);
        let mut effects: Vec<Effect> = Vec::new();
        effects.push(Effect::SetSectorColor { sector_id, color });
        effects.push(
            Effect::AddText {
                pos: sector_center,
                message: Message::SectorOwnerChanged { sector_id, owner_id },
            },
        );
        (EventSectorOwnerChangedVisualizer, effects)
    }
}

/// The effects of laying smoke on tile `pos`: "smoke" above it and two layers
/// of the cloud `object_id`.
pub fn smoke_effects(pos: MapPos, object_id: ObjectId, smoke_mesh_id: MeshId) -> (effects: Vec<
    Effect,
>)
    ensures
        effects@ == seq![
            Effect::AddText { pos, message: Message::Smoke },
            Effect::AddSmoke { object_id, pos, mesh_id: smoke_mesh_id, layer: 1 },
            Effect::AddSmoke { object_id, pos, mesh_id: smoke_mesh_id, layer: 2 },
        ],
{
    let mut effects: Vec<Effect> = Vec::new();
    effects.push(Effect::AddText { pos, message: Message::Smoke });
    effects.push(Effect::AddSmoke { object_id, pos, mesh_id: smoke_mesh_id, layer: 1 });
    effects.push(Effect::AddSmoke { object_id, pos, mesh_id: smoke_mesh_id, layer: 2 });
    effects
}

/// The visualizer of a unit hooking another on: the transporter moves to the
/// other unit's slot, then takes its node under its own.
#[derive(Clone, Copy, Debug, PartialEq, Eq, Structural)]
pub struct EventAttachVisualizer {
    pub transporter_id: UnitId,
    pub attached_unit_id: UnitId,
    pub from: Anchor,
    pub to: Anchor,
    pub pace: Pace,
}

impl EventAttachVisualizer {
    /// `transporter_id`, at `transporter_pos` with node `transporter_node_id`,
    /// attaches `attached_unit_id` at `attached_pos`: "attached" above the
    /// transporter's tile and its node turned towards the other unit.
    pub fn new(
        transporter_id: UnitId,
        transporter_pos: ExactPos,
        transporter_node_id: NodeId,
        attached_unit_id: UnitId,
        attached_pos: ExactPos,
    ) -> (r: (Self, Vec<Effect>))
        ensures
            r.0 == (EventAttachVisualizer {
                transporter_id,
                attached_unit_id,
                from: Anchor::Slot(transporter_pos),
                to: Anchor::Slot(attached_pos),
                pace: Pace::Given,
            }),
            r.1@ == seq![
                Effect::AddText { pos: transporter_pos.map_pos, message: Message::Attached },
                Effect::Turn {
                    node_id: transporter_node_id,
                    from: Anchor::Slot(transporter_pos),
                    to: Anchor::Slot(attached_pos),
                },
            ],
    {
        let from = Anchor::Slot(transporter_pos);
        let to = Anchor::Slot(attached_pos);
        let mut effects: Vec<Effect> = Vec::new();
        effects.push(Effect::AddText { pos: transporter_pos.map_pos, message: Message::Attached });
        effects.push(Effect::Turn { node_id: transporter_node_id, from, to });
        (EventAttachVisualizer { transporter_id, attached_unit_id, from, to, pace: Pace::Given }, effects)
    }

    /// At the end of the move the attached unit's node goes under the
    /// transporter's.
    pub fn end(&self) -> (effects: Vec<Effect>)
        ensures
            effects@ == seq![
                Effect::AttachPassenger {
                    transporter_id: self.transporter_id,
                    attached_unit_id: self.attached_unit_id,
                },
            ],
    {
        let mut effects: Vec<Effect> = Vec::new();
        effects.push(
            Effect::AttachPassenger {
                transporter_id: self.transporter_id,
                attached_unit_id: self.attached_unit_id,
            },
        );
        effects
    }
}

/// The visualizer of a unit unhooking the unit it carries: the unhooked unit
/// gets a node of its own and the transporter moves on.
#[derive(Clone, Copy, Debug, PartialEq, Eq, Structural)]
pub struct EventDetachVisualizer {
    pub transporter_id: UnitId,
    pub from: Anchor,
    pub to: Anchor,
    pub pace: Pace,
}

impl EventDetachVisualizer {
    /// `transporter`, with node `transporter_node_id`, drops `attached_unit`,
    /// the unit it carries, and moves to `pos`. The dropped unit is shown under
    /// the new node `attached_node_id`, "detached" goes above the transporter's
    /// tile, its node is turned towards `pos`, and the passenger is unfolded
    /// from it; it then moves at the pace of its own type.
    pub fn new(
        transporter: &UnitInfo,
        transporter_node_id: NodeId,
        attached_unit: &UnitInfo,
        attached_node_id: NodeId,
        attached_mesh_id: MeshId,
        marker_mesh_id: MeshId,
        pos: ExactPos,
    ) -> (r: (Self, Vec<Effect>))
        requires
            transporter.attached_unit_id == Some(attached_unit.id),
        ensures
            r.0 == (EventDetachVisualizer {
                transporter_id: transporter.id,
                from: Anchor::Slot(transporter.pos),
                to: Anchor::Slot(pos),
                pace: Pace::OfType(transporter.type_id),
            }),
            r.1@ == seq![
                Effect::ShowUnit {
                    node_id: attached_node_id,
                    unit: *attached_unit,
                    at: Anchor::Slot(attached_unit.pos),
                    mesh_id: attached_mesh_id,
                    marker_mesh_id,
                },
                Effect::AddText { pos: transporter.pos.map_pos, message: Message::Detached },
                Effect::Turn {
                    node_id: transporter_node_id,
                    from: Anchor::Slot(transporter.pos),
                    to: Anchor::Slot(pos),
                },
                Effect::Edit(
                    NodeEdit::SetFirstChildOffset {
                        node_id: transporter_node_id,
                        offset: ChildOffset::Centre,
                    },
                ),
                Effect::Edit(NodeEdit::PopLastChild { node_id: transporter_node_id }),
            ],
    {
        let from = Anchor::Slot(transporter.pos);
        let to = Anchor::Slot(pos);
        let mut effects: Vec<Effect> = Vec::new();
        effects.push(
            Effect::ShowUnit {
                node_id: attached_node_id,
                unit: *attached_unit,
                at: Anchor::Slot(attached_unit.pos),
                mesh_id: attached_mesh_id,
                marker_mesh_id,
            },
        );
        effects.push(Effect::AddText { pos: transporter.pos.map_pos, message: Message::Detached });
        effects.push(Effect::Turn { node_id: transporter_node_id, from, to });
        let unfold = passenger_unfold_edits(transporter_node_id);
        effects.push(Effect::Edit(unfold[0]));
        effects.push(Effect::Edit(unfold[1]));
        (
            EventDetachVisualizer {
                transporter_id: transporter.id,
                from,
                to,
                pace: Pace::OfType(transporter.type_id),
            },
            effects,
        )
    }
}

} // verus!
