use event_visualizer::actions::{visualize_event_create_unit, ActionCreate, ActionMove};
use event_visualizer::attack::{visualize_event_attack, AttackInfo, Attacker, EventAttackUnitVisualizer, ShellFlight};
use event_visualizer::effects::{Anchor, Effect, Pace, SectorColor};
use event_visualizer::events::{
    sector_color, smoke_effects, EventAttachVisualizer, EventDetachVisualizer,
    EventHideUnitVisualizer, EventLoadUnitVisualizer, EventSectorOwnerChangedVisualizer,
    EventSetReactionFireModeVisualizer, EventShowUnitVisualizer, EventUnloadUnitVisualizer,
};
use event_visualizer::ids::{
    ExactPos, FireMode, MapPos, MeshId, NodeId, ObjectId, PlayerId, ReactionFireMode, SectorId,
    SlotId, UnitId, UnitTypeId,
};
use event_visualizer::nodes::{get_unit_scene_nodes, unit_node_children, ChildNode, NodeColor, Placement, UnitInfo};
use event_visualizer::passenger::{passenger_fold_edits, passenger_unfold_edits, ChildOffset, NodeEdit};
use event_visualizer::text::{append_int, Message};

fn pos(x: i32, y: i32, slot: u8) -> ExactPos {
    ExactPos { map_pos: MapPos { x, y }, slot_id: SlotId { id: slot } }
}

fn unit(id: i32, count: i32, is_alive: bool, attached: Option<i32>) -> UnitInfo {
    UnitInfo {
        id: UnitId { id },
        pos: pos(id, 2 * id, 1),
        player_id: PlayerId { id: 1 },
        type_id: UnitTypeId { id: 7 },
        count,
        is_alive,
        attached_unit_id: attached.map(|a| UnitId { id: a }),
    }
}

#[test]
fn fixed_messages_read_as_shown_on_the_map() {
    assert_eq!(Message::Spotted.text(), "spotted");
    assert_eq!(Message::Lost.text(), "lost");
    assert_eq!(Message::Unloaded.text(), "unloaded");
    assert_eq!(Message::Loaded.text(), "loaded");
    assert_eq!(Message::Attached.text(), "attached");
    assert_eq!(Message::Detached.text(), "detached");
    assert_eq!(Message::Smoke.text(), "smoke");
    assert_eq!(Message::SmokeCleared.text(), "smoke cleared");
    assert_eq!(Message::ReactionFire.text(), "reaction fire");
    assert_eq!(Message::Ambushed.text(), "Ambushed");
    assert_eq!(Message::NormalFireMode.text(), "Normal fire mode");
    assert_eq!(Message::HoldFire.text(), "Hold fire");
}

#[test]
fn sector_owner_changed_text() {
    let with_owner = Message::SectorOwnerChanged {
        sector_id: SectorId { id: 12 },
        owner_id: Some(PlayerId { id: 1 }),
    };
    assert_eq!(with_owner.text(), "Sector 12: owner changed: Player 1");
    let without = Message::SectorOwnerChanged { sector_id: SectorId { id: 0 }, owner_id: None };
    assert_eq!(without.text(), "Sector 0: owner changed: None");
}

#[test]
fn victory_point_text() {
    assert_eq!(Message::VictoryPoints { count: 3 }.text(), "+3 VP!");
    assert_eq!(Message::VictoryPoints { count: 0 }.text(), "+0 VP!");
    assert_eq!(Message::VictoryPoints { count: -2 }.text(), "+-2 VP!");
}

#[test]
fn integers_render_as_format_does() {
    for n in [0, 7, 9, 10, 99, 100, 1234567, -1, -10, -905, i32::MAX, i32::MIN] {
        let mut s = String::from("x=");
        append_int(&mut s, n);
        assert_eq!(s, format!("x={}", n));
    }
}

#[test]
fn single_body_stands_in_the_centre() {
    let u = unit(1, 1, true, None);
    let nodes = get_unit_scene_nodes(&u, MeshId { id: 4 });
    assert_eq!(
        nodes,
        vec![ChildNode { placement: Placement::Center, mesh_id: MeshId { id: 4 }, color: NodeColor::White }]
    );
}

#[test]
fn bodies_stand_on_a_circle_and_wrecks_are_grey() {
    let u = unit(1, 3, false, None);
    let nodes = get_unit_scene_nodes(&u, MeshId { id: 4 });
    let expected: Vec<ChildNode> = (0..3)
        .map(|i| ChildNode {
            placement: Placement::Circle { count: 3, index: i },
            mesh_id: MeshId { id: 4 },
            color: NodeColor::Wreck,
        })
        .collect();
    assert_eq!(nodes, expected);
    assert!(get_unit_scene_nodes(&unit(1, 0, true, None), MeshId { id: 4 }).is_empty());
    assert!(get_unit_scene_nodes(&unit(1, -3, true, None), MeshId { id: 4 }).is_empty());
}

#[test]
fn living_unit_gets_its_player_marker_last() {
    let alive = unit(1, 2, true, None);
    let children = unit_node_children(&alive, MeshId { id: 4 }, MeshId { id: 9 });
    assert_eq!(children.len(), 3);
    assert_eq!(
        children[2],
        ChildNode {
            placement: Placement::AboveHex,
            mesh_id: MeshId { id: 9 },
            color: NodeColor::Player(PlayerId { id: 1 }),
        }
    );
    assert_eq!(children[0].color, NodeColor::White);
    let wreck = unit(1, 2, false, None);
    let children = unit_node_children(&wreck, MeshId { id: 4 }, MeshId { id: 9 });
    assert_eq!(children.len(), 2);
    assert!(children.iter().all(|c| c.color == NodeColor::Wreck));
}

fn attack(attacker: Option<i32>, mode: FireMode, is_ambush: bool) -> AttackInfo {
    AttackInfo {
        attacker_id: attacker.map(|id| UnitId { id }),
        mode,
        target_pos: pos(5, 6, 2),
        is_ambush,
        is_inderect: true,
    }
}

#[test]
fn reactive_attack_from_ambush_shows_both_texts_around_the_shell() {
    let info = attack(Some(3), FireMode::Reactive, true);
    let attacker = Attacker { node_id: NodeId { id: 30 }, map_pos: MapPos { x: 1, y: 1 } };
    let effects = visualize_event_attack(&info, Some(attacker), MeshId { id: 8 });
    assert_eq!(
        effects,
        vec![
            Effect::AddText { pos: MapPos { x: 1, y: 1 }, message: Message::ReactionFire },
            Effect::AddShell {
                at: Anchor::Slot(pos(5, 6, 2)),
                from: Anchor::Node(NodeId { id: 30 }),
                mesh_id: MeshId { id: 8 },
            },
            Effect::AddText { pos: MapPos { x: 5, y: 6 }, message: Message::Ambushed },
        ]
    );
}

#[test]
fn unseen_attacker_fires_no_shell() {
    let info = attack(None, FireMode::Active, false);
    assert!(visualize_event_attack(&info, None, MeshId { id: 8 }).is_empty());
    let info = attack(None, FireMode::Reactive, true);
    assert_eq!(
        visualize_event_attack(&info, None, MeshId { id: 8 }),
        vec![Effect::AddText { pos: MapPos { x: 5, y: 6 }, message: Message::Ambushed }]
    );
}

#[test]
fn active_attack_shows_no_reaction_text() {
    let info = attack(Some(3), FireMode::Active, false);
    let attacker = Attacker { node_id: NodeId { id: 30 }, map_pos: MapPos { x: 1, y: 1 } };
    let effects = visualize_event_attack(&info, Some(attacker), MeshId { id: 8 });
    assert_eq!(effects.len(), 1);
    assert!(matches!(effects[0], Effect::AddShell { .. }));
}

#[test]
fn shell_is_removed_once_it_has_arrived() {
    let info = attack(Some(3), FireMode::Active, false);
    let attacker = Attacker { node_id: NodeId { id: 30 }, map_pos: MapPos { x: 1, y: 1 } };
    let mut v = EventAttackUnitVisualizer::new(info, Some(attacker), Some(NodeId { id: 77 }));
    assert_eq!(
        v.shell(),
        Some(ShellFlight {
            node_id: NodeId { id: 77 },
            from: Anchor::Node(NodeId { id: 30 }),
            to: Anchor::Slot(pos(5, 6, 2)),
            pace: Pace::Shell,
        })
    );
    assert!(v.shell_arcs());
    assert!(!v.is_finished(false));
    assert_eq!(v.update(false), None);
    assert!(v.shell().is_some());
    assert_eq!(v.update(true), Some(NodeId { id: 77 }));
    assert_eq!(v.shell(), None);
    assert!(v.is_finished(false));
    assert_eq!(v.update(true), None);
}

#[test]
fn attack_without_shell_is_finished_at_once() {
    let info = attack(None, FireMode::Active, false);
    let mut v = EventAttackUnitVisualizer::new(info, None, None);
    assert!(v.is_finished(false));
    assert_eq!(v.update(true), None);
}

#[test]
fn spotted_unit_is_shown_and_passengers_are_fixed() {
    let u = unit(1, 1, true, Some(2));
    let others = vec![unit(1, 1, true, Some(2)), unit(3, 1, true, None), unit(4, 2, true, Some(5))];
    let (_, effects) =
        EventShowUnitVisualizer::new(&u, NodeId { id: 40 }, MeshId { id: 1 }, MeshId { id: 2 }, &others);
    assert_eq!(
        effects,
        vec![
            Effect::AddText { pos: MapPos { x: 1, y: 2 }, message: Message::Spotted },
            Effect::ShowUnit {
                node_id: NodeId { id: 40 },
                unit: u,
                at: Anchor::Slot(u.pos),
                mesh_id: MeshId { id: 1 },
                marker_mesh_id: MeshId { id: 2 },
            },
            Effect::AttachPassenger { transporter_id: UnitId { id: 1 }, attached_unit_id: UnitId { id: 2 } },
            Effect::AttachPassenger { transporter_id: UnitId { id: 1 }, attached_unit_id: UnitId { id: 2 } },
            Effect::AttachPassenger { transporter_id: UnitId { id: 4 }, attached_unit_id: UnitId { id: 5 } },
        ]
    );
}

#[test]
fn hidden_unit_is_lost_only_when_it_has_a_node() {
    let (_, effects) = EventHideUnitVisualizer::new(UnitId { id: 6 }, Some(MapPos { x: 3, y: 4 }));
    assert_eq!(
        effects,
        vec![
            Effect::AddText { pos: MapPos { x: 3, y: 4 }, message: Message::Lost },
            Effect::RemoveUnit { unit_id: UnitId { id: 6 } },
        ]
    );
    let (_, effects) = EventHideUnitVisualizer::new(UnitId { id: 6 }, None);
    assert!(effects.is_empty());
}

#[test]
fn unloaded_unit_starts_on_the_transporter() {
    let u = unit(1, 1, true, None);
    let from = pos(9, 9, 0);
    let (v, effects) =
        EventUnloadUnitVisualizer::new(&u, NodeId { id: 11 }, MeshId { id: 1 }, MeshId { id: 2 }, from);
    assert_eq!(
        v,
        EventUnloadUnitVisualizer {
            node_id: NodeId { id: 11 },
            from: Anchor::Slot(from),
            to: Anchor::Slot(u.pos),
            pace: Pace::Given,
        }
    );
    assert_eq!(effects.len(), 4);
    assert_eq!(effects[0], Effect::AddText { pos: u.pos.map_pos, message: Message::Unloaded });
    assert_eq!(effects[2], Effect::Place { node_id: NodeId { id: 11 }, at: Anchor::Slot(from) });
    assert_eq!(
        effects[3],
        Effect::Turn { node_id: NodeId { id: 11 }, from: Anchor::Slot(from), to: Anchor::Slot(u.pos) }
    );
}

#[test]
fn loaded_unit_disappears_at_the_end() {
    let (v, effects) =
        EventLoadUnitVisualizer::new(UnitId { id: 3 }, pos(1, 1, 0), NodeId { id: 5 }, pos(2, 2, 1));
    assert_eq!(
        effects,
        vec![
            Effect::AddText { pos: MapPos { x: 1, y: 1 }, message: Message::Loaded },
            Effect::Turn {
                node_id: NodeId { id: 5 },
                from: Anchor::Slot(pos(1, 1, 0)),
                to: Anchor::Slot(pos(2, 2, 1)),
            },
        ]
    );
    assert_eq!(v.pace, Pace::Given);
    assert_eq!(v.end(), vec![Effect::RemoveUnit { unit_id: UnitId { id: 3 } }]);
}

#[test]
fn reaction_fire_mode_texts() {
    let (_, e) = EventSetReactionFireModeVisualizer::new(MapPos { x: 0, y: 1 }, ReactionFireMode::Normal);
    assert_eq!(e, vec![Effect::AddText { pos: MapPos { x: 0, y: 1 }, message: Message::NormalFireMode }]);
    let (_, e) = EventSetReactionFireModeVisualizer::new(MapPos { x: 0, y: 1 }, ReactionFireMode::HoldFire);
    assert_eq!(e, vec![Effect::AddText { pos: MapPos { x: 0, y: 1 }, message: Message::HoldFire }]);
}

#[test]
fn sector_colors_by_owner() {
    assert_eq!(sector_color(None), SectorColor::Neutral);
    assert_eq!(sector_color(Some(PlayerId { id: 0 })), SectorColor::FirstPlayer);
    assert_eq!(sector_color(Some(PlayerId { id: 1 })), SectorColor::SecondPlayer);
    let (_, e) = EventSectorOwnerChangedVisualizer::new(
        SectorId { id: 2 },
        Some(PlayerId { id: 0 }),
        MapPos { x: 4, y: 4 },
    );
    assert_eq!(
        e,
        vec![
            Effect::SetSectorColor { sector_id: SectorId { id: 2 }, color: SectorColor::FirstPlayer },
            Effect::AddText {
                pos: MapPos { x: 4, y: 4 },
                message: Message::SectorOwnerChanged {
                    sector_id: SectorId { id: 2 },
                    owner_id: Some(PlayerId { id: 0 }),
                },
            },
        ]
    );
    match e[1] {
        Effect::AddText { message, .. } => {
            assert_eq!(message.text(), "Sector 2: owner changed: Player 0")
        }
        _ => unreachable!(),
    }
}

#[test]
fn smoke_is_laid_in_two_layers() {
    let e = smoke_effects(MapPos { x: 1, y: 2 }, ObjectId { id: 3 }, MeshId { id: 4 });
    assert_eq!(
        e,
        vec![
            Effect::AddText { pos: MapPos { x: 1, y: 2 }, message: Message::Smoke },
            Effect::AddSmoke { object_id: ObjectId { id: 3 }, pos: MapPos { x: 1, y: 2 }, mesh_id: MeshId { id: 4 }, layer: 1 },
            Effect::AddSmoke { object_id: ObjectId { id: 3 }, pos: MapPos { x: 1, y: 2 }, mesh_id: MeshId { id: 4 }, layer: 2 },
        ]
    );
}

#[test]
fn attach_turns_the_transporter_and_fixes_the_passenger_at_the_end() {
    let (v, e) = EventAttachVisualizer::new(
        UnitId { id: 1 },
        pos(0, 0, 0),
        NodeId { id: 10 },
        UnitId { id: 2 },
        pos(0, 1, 0),
    );
    assert_eq!(v.pace, Pace::Given);
    assert_eq!(e[0], Effect::AddText { pos: MapPos { x: 0, y: 0 }, message: Message::Attached });
    assert_eq!(
        e[1],
        Effect::Turn { node_id: NodeId { id: 10 }, from: Anchor::Slot(pos(0, 0, 0)), to: Anchor::Slot(pos(0, 1, 0)) }
    );
    assert_eq!(
        v.end(),
        vec![Effect::AttachPassenger { transporter_id: UnitId { id: 1 }, attached_unit_id: UnitId { id: 2 } }]
    );
}

#[test]
fn detach_shows_the_dropped_unit_then_turns_the_transporter() {
    let transporter = unit(1, 1, true, Some(2));
    let carried = unit(2, 1, true, None);
    let (v, e) = EventDetachVisualizer::new(
        &transporter,
        NodeId { id: 10 },
        &carried,
        NodeId { id: 20 },
        MeshId { id: 5 },
        MeshId { id: 6 },
        pos(7, 7, 0),
    );
    assert_eq!(
        v,
        EventDetachVisualizer {
            transporter_id: UnitId { id: 1 },
            from: Anchor::Slot(transporter.pos),
            to: Anchor::Slot(pos(7, 7, 0)),
            pace: Pace::OfType(UnitTypeId { id: 7 }),
        }
    );
    assert_eq!(
        e,
        vec![
            Effect::ShowUnit {
                node_id: NodeId { id: 20 },
                unit: carried,
                at: Anchor::Slot(carried.pos),
                mesh_id: MeshId { id: 5 },
                marker_mesh_id: MeshId { id: 6 },
            },
            Effect::AddText { pos: transporter.pos.map_pos, message: Message::Detached },
            Effect::Turn {
                node_id: NodeId { id: 10 },
                from: Anchor::Slot(transporter.pos),
                to: Anchor::Slot(pos(7, 7, 0)),
            },
            Effect::Edit(NodeEdit::SetFirstChildOffset { node_id: NodeId { id: 10 }, offset: ChildOffset::Centre }),
            Effect::Edit(NodeEdit::PopLastChild { node_id: NodeId { id: 10 } }),
        ]
    );
}

#[test]
fn created_unit_rises_into_its_slot() {
    let u = unit(3, 2, true, None);
    let (create, rise) = visualize_event_create_unit(&u, MeshId { id: 1 }, MeshId { id: 2 }, NodeId { id: 50 });
    assert_eq!(
        create,
        ActionCreate {
            unit_info: u,
            mesh_id: MeshId { id: 1 },
            marker_mesh_id: MeshId { id: 2 },
            pos: Anchor::BelowSlot(u.pos),
            node_id: NodeId { id: 50 },
        }
    );
    assert_eq!(
        rise,
        ActionMove { node_id: NodeId { id: 50 }, from: Anchor::BelowSlot(u.pos), to: Anchor::Slot(u.pos), pace: Pace::Rise }
    );
    assert_eq!(
        create.begin(),
        vec![Effect::ShowUnit {
            node_id: NodeId { id: 50 },
            unit: u,
            at: Anchor::BelowSlot(u.pos),
            mesh_id: MeshId { id: 1 },
            marker_mesh_id: MeshId { id: 2 },
        }]
    );
}

#[test]
fn unit_move_starts_where_the_node_stands() {
    let m = ActionMove::new(NodeId { id: 8 }, pos(1, 2, 3));
    assert_eq!(
        m,
        ActionMove { node_id: NodeId { id: 8 }, from: Anchor::Node(NodeId { id: 8 }), to: Anchor::Slot(pos(1, 2, 3)), pace: Pace::Given }
    );
}

#[test]
fn passenger_is_folded_behind_its_transporter() {
    let edits = passenger_fold_edits(NodeId { id: 1 }, Some(NodeId { id: 2 }), UnitId { id: 9 });
    assert_eq!(
        edits,
        vec![
            NodeEdit::MoveFirstChild {
                from: NodeId { id: 2 },
                to: NodeId { id: 1 },
                offset: ChildOffset::Behind,
                flip: true,
            },
            NodeEdit::RemoveUnit { unit_id: UnitId { id: 9 } },
            NodeEdit::SetFirstChildOffset { node_id: NodeId { id: 1 }, offset: ChildOffset::Ahead },
        ]
    );
}

#[test]
fn passenger_without_node_is_left_alone() {
    assert!(passenger_fold_edits(NodeId { id: 1 }, None, UnitId { id: 9 }).is_empty());
}

#[test]
fn unfold_centres_the_transporter_and_drops_the_passenger() {
    assert_eq!(
        passenger_unfold_edits(NodeId { id: 4 }),
        vec![
            NodeEdit::SetFirstChildOffset { node_id: NodeId { id: 4 }, offset: ChildOffset::Centre },
            NodeEdit::PopLastChild { node_id: NodeId { id: 4 } },
        ]
    );
}

/// Carries edits out on a small list-of-children scene, as the game does.
fn play(
    children: &mut std::collections::HashMap<i32, Vec<(i32, ChildOffset, bool)>>,
    units: &mut std::collections::HashMap<i32, i32>,
    edits: &[NodeEdit],
) {
    for edit in edits {
        match *edit {
            NodeEdit::MoveFirstChild { from, to, offset, flip } => {
                let (body, _, flipped) = children.get_mut(&from.id).unwrap().remove(0);
                children.get_mut(&to.id).unwrap().push((body, offset, flipped != flip));
            }
            NodeEdit::RemoveUnit { unit_id } => {
                if let Some(node) = units.remove(&unit_id.id) {
                    children.remove(&node);
                }
            }
            NodeEdit::SetFirstChildOffset { node_id, offset } => {
                children.get_mut(&node_id.id).unwrap()[0].1 = offset;
            }
            NodeEdit::PopLastChild { node_id } => {
                children.get_mut(&node_id.id).unwrap().pop();
            }
        }
    }
}

#[test]
fn fold_then_unfold_restores_the_transporter_and_a_second_fold_does_nothing() {
    let mut children = std::collections::HashMap::new();
    children.insert(10, vec![(100, ChildOffset::Centre, false), (101, ChildOffset::Centre, false)]);
    children.insert(20, vec![(200, ChildOffset::Centre, false), (201, ChildOffset::Centre, false)]);
    let mut units = std::collections::HashMap::new();
    units.insert(1, 10);
    units.insert(2, 20);
    let before = children[&10].clone();
    let fold = passenger_fold_edits(NodeId { id: 10 }, units.get(&2).map(|&id| NodeId { id }), UnitId { id: 2 });
    play(&mut children, &mut units, &fold);
    assert_eq!(
        children[&10],
        vec![(100, ChildOffset::Ahead, false), (101, ChildOffset::Centre, false), (200, ChildOffset::Behind, true)]
    );
    assert!(!units.contains_key(&2));
    let again = passenger_fold_edits(NodeId { id: 10 }, units.get(&2).map(|&id| NodeId { id }), UnitId { id: 2 });
    assert!(again.is_empty());
    play(&mut children, &mut units, &passenger_unfold_edits(NodeId { id: 10 }));
    assert_eq!(children[&10], before);
}
