//! An attack: the texts it shows, the shell it fires and the state of the
//! shell's flight.

use vstd::prelude::*;
use crate::effects::{Anchor, Effect, Pace};
use crate::ids::{ExactPos, FireMode, MapPos, MeshId, NodeId, UnitId};
use crate::text::Message;

verus! {

/// What the visualizer reads of an attack event.
#[derive(Clone, Copy, Debug, PartialEq, Eq, Structural)]
pub struct AttackInfo {
    /// The attacker, unless it fired unseen.
    pub attacker_id: Option<UnitId>,
    pub mode: FireMode,
    /// The slot that was fired at.
    pub target_pos: ExactPos,
    /// The attack came from ambush.
    pub is_ambush: bool,
    /// The attack was indirect fire: the shell flies in an arc.
    pub is_inderect: bool,
}

/// What the visualizer reads of a visible attacker: its scene node and its tile.
#[derive(Clone, Copy, Debug, PartialEq, Eq, Structural)]
pub struct Attacker {
    pub node_id: NodeId,
    pub map_pos: MapPos,
}

/// A shell in flight: its scene node and the way it flies.
#[derive(Clone, Copy, Debug, PartialEq, Eq, Structural)]
pub struct ShellFlight {
    pub node_id: NodeId,
    pub from: Anchor,
    pub to: Anchor,
    pub pace: Pace,
}

/// The effects of an attack: "reaction fire" above an attacker that fired in
/// reaction, a shell that flies from a visible attacker to the target, then
/// "Ambushed" above the target of an ambush.
pub open spec fn attack_effects(
    attack_info: AttackInfo,
    attacker: Option<Attacker>,
    shell_mesh_id: MeshId,
) -> Seq<Effect> {
    let target = Anchor::Slot(attack_info.target_pos);
    let fired = match attacker {
        Some(a) => {
            let reaction = if attack_info.mode == FireMode::Reactive {
                seq![Effect::AddText { pos: a.map_pos, message: Message::ReactionFire }]
            } else {
                Seq::empty()
            };
            reaction.push(
                Effect::AddShell { at: target, from: Anchor::Node(a.node_id), mesh_id: shell_mesh_id },
            )
        },
        None => Seq::empty(),
    };
    if attack_info.is_ambush {
        fired.push(
            Effect::AddText { pos: attack_info.target_pos.map_pos, message: Message::Ambushed },
        )
    } else {
        fired
    }
}

/// The effects of an attack event, `attacker` being the attacker's node and
/// tile, there when the attack names its attacker.
pub fn visualize_event_attack(
    attack_info: &AttackInfo,
    attacker: Option<Attacker>,
    shell_mesh_id: MeshId,
) -> (effects: Vec<Effect>)
    requires
        attacker.is_some() == attack_info.attacker_id.is_some(),
    ensures
        effects@ == attack_effects(*attack_info, attacker, shell_mesh_id),
{
    let mut effects: Vec<Effect> = Vec::new();
    let target = Anchor::Slot(attack_info.target_pos);
    if let Some(a) = attacker {
        if attack_info.mode == FireMode::Reactive {
            effects.push(Effect::AddText { pos: a.map_pos, message: Message::ReactionFire });
        }
        effects.push(
            Effect::AddShell { at: target, from: Anchor::Node(a.node_id), mesh_id: shell_mesh_id },
        );
    }
    if attack_info.is_ambush {
        effects.push(
            Effect::AddText { pos: attack_info.target_pos.map_pos, message: Message::Ambushed },
        );
    }
    assert(effects@ =~= attack_effects(*attack_info, attacker, shell_mesh_id));
    effects
}

/// The flight of the shell fired by `attacker` at `attack_info`'s target, its
/// node being `node_id`.
pub open spec fn shell_flight(attack_info: AttackInfo, attacker: Attacker, node_id: NodeId) -> ShellFlight {
    ShellFlight {
        node_id,
        from: Anchor::Node(attacker.node_id),
        to: Anchor::Slot(attack_info.target_pos),
        pace: Pace::Shell,
    }
}

/// Whether the visualizer is done: there is no shell, or it has arrived.
pub open spec fn attack_is_finished(shell: Option<ShellFlight>, shell_arrived: bool) -> bool {
    shell.is_none() || shell_arrived
}

/// The shell after an update step: gone once it has arrived.
pub open spec fn shell_after_update(shell: Option<ShellFlight>, shell_arrived: bool) -> Option<
    ShellFlight,
> {
    if shell.is_some() && shell_arrived {
        None
    } else {
        shell
    }
}

/// The node an update step removes: that of a shell that has arrived.
pub open spec fn node_removed_by_update(shell: Option<ShellFlight>, shell_arrived: bool) -> Option<
    NodeId,
> {
    match shell {
        Some(s) => if shell_arrived {
            Some(s.node_id)
        } else {
            None
        },
        None => None,
    }
}

/// The visualizer of an attack: the attack and, while it flies, the shell.
#[derive(Clone, Copy, Debug, PartialEq, Eq, Structural)]
pub struct EventAttackUnitVisualizer {
    attack_info: AttackInfo,
    shell: Option<ShellFlight>,
}

impl EventAttackUnitVisualizer {
    /// The attack this visualizer shows.
    pub closed spec fn attack(self) -> AttackInfo {
        self.attack_info
    }

    /// The shell in flight, if any.
    pub closed spec fn flight(self) -> Option<ShellFlight> {
        self.shell
    }

    /// The visualizer of `attack_info`: a shell flies iff the attacker is
    /// known, its node being `shell_node_id`, the node that the `AddShell`
    /// effect of `visualize_event_attack` added.
    pub fn new(attack_info: AttackInfo, attacker: Option<Attacker>, shell_node_id: Option<NodeId>) -> (v:
        Self)
        requires
            attacker.is_some() == attack_info.attacker_id.is_some(),
            attacker.is_some() == shell_node_id.is_some(),
        ensures
            v.attack() == attack_info,
            v.flight() == match attacker {
                Some(a) => Some(shell_flight(attack_info, a, shell_node_id.unwrap())),
                None => None,
            },
    {
        let shell = match attacker {
            Some(a) => {
                let node_id = shell_node_id.unwrap();
                Some(
                    ShellFlight {
                        node_id,
                        from: Anchor::Node(a.node_id),
                        to: Anchor::Slot(attack_info.target_pos),
                        pace: Pace::Shell,
                    },
                )
            },
            None => None,
        };
        EventAttackUnitVisualizer { attack_info, shell }
    }

    /// The shell in flight, if any.
    pub fn shell(&self) -> (s: Option<ShellFlight>)
        ensures
            s == self.flight(),
    {
        self.shell
    }

    /// Whether the shell flies in an arc (indirect fire).
    pub fn shell_arcs(&self) -> (b: bool)
        ensures
            b == self.attack().is_inderect,
    {
        self.attack_info.is_inderect
    }

    /// Whether the visualizer is done, `shell_arrived` telling whether the
    /// shell's move has come to its end.
    pub fn is_finished(&self, shell_arrived: bool) -> (b: bool)
        ensures
            b == attack_is_finished(self.flight(), shell_arrived),
    {
        match self.shell {
            Some(_) => shell_arrived,
            None => true,
        }
    }

    /// One update step, after the shell (if any) has been moved:
    /// `shell_arrived` tells whether its move has come to its end. A shell that
    /// has arrived is dropped, and its node is returned for removal.
    pub fn update(&mut self, shell_arrived: bool) -> (removed: Option<NodeId>)
        ensures
            final(self).attack() == old(self).attack(),
            final(self).flight() == shell_after_update(old(self).flight(), shell_arrived),
            removed == node_removed_by_update(old(self).flight(), shell_arrived),
    {
        match self.shell {
            Some(s) => {
                if shell_arrived {
                    self.shell = None;
                    Some(s.node_id)
                } else {
                    None
                }
            },
            None => None,
        }
    }
}

/// What an attack shows, over all attacks: "reaction fire" above a known
/// attacker that fired in reaction comes first, whether or not it was an
/// ambush; a known attacker fires exactly one shell, from its node to the
/// target's slot; "Ambushed" above the target's tile comes last for every
/// ambush, whatever the fire mode; and nothing else is shown.
pub proof fn lemma_attack_effects(attack_info: AttackInfo, attacker: Option<Attacker>, shell_mesh_id: MeshId)
    ensures
        ({
            let e = attack_effects(attack_info, attacker, shell_mesh_id);
            let reacts = attacker.is_some() && attack_info.mode == FireMode::Reactive;
            &&& e.len() == (if reacts { 1int } else { 0int }) + (if attacker.is_some() {
                1int
            } else {
                0int
            }) + (if attack_info.is_ambush { 1int } else { 0int })
            &&& reacts ==> e[0] == (Effect::AddText {
                pos: attacker.unwrap().map_pos,
                message: Message::ReactionFire,
            })
            &&& attacker.is_some() ==> e[if reacts { 1int } else { 0int }] == (Effect::AddShell {
                at: Anchor::Slot(attack_info.target_pos),
                from: Anchor::Node(attacker.unwrap().node_id),
                mesh_id: shell_mesh_id,
            })
            &&& attack_info.is_ambush ==> e.last() == (Effect::AddText {
                pos: attack_info.target_pos.map_pos,
                message: Message::Ambushed,
            })
            &&& forall|k: int|
                0 <= k < e.len() ==> match #[trigger] e[k] {
                    Effect::AddText { message, .. } => (message == Message::ReactionFire && reacts
                        && k == 0) || (message == Message::Ambushed && attack_info.is_ambush && k
                        == e.len() - 1),
                    Effect::AddShell { .. } => attacker.is_some(),
                    _ => false,
                }
        }),
{
}

/// Once the visualizer of an attack is done, it stays done after the update
/// step: whatever the shell's move reports afterwards, `is_finished` holds.
pub proof fn lemma_attack_stays_finished(
    shell: Option<ShellFlight>,
    shell_arrived: bool,
    later_arrived: bool,
)
    requires
        attack_is_finished(shell, shell_arrived),
    ensures
        attack_is_finished(shell_after_update(shell, shell_arrived), later_arrived),
{
}

/// The shell's node is removed at most once: after the update step that
/// removed it, no later update step removes a node.
pub proof fn lemma_shell_node_removed_once(
    shell: Option<ShellFlight>,
    shell_arrived: bool,
    later_arrived: bool,
)
    requires
        node_removed_by_update(shell, shell_arrived).is_some(),
    ensures
        node_removed_by_update(shell_after_update(shell, shell_arrived), later_arrived).is_none(),
{
}

/// An update step removes a node exactly when the shell was in flight and has
/// arrived, that is when a visualizer with a shell is finished, and the node
/// it removes is the shell's. A shell still on its way keeps the visualizer
/// running and is kept by the update; without a shell it is finished.
pub proof fn lemma_update_removes_the_shell_node(shell: Option<ShellFlight>, shell_arrived: bool)
    ensures
        node_removed_by_update(shell, shell_arrived).is_some() <==> (shell.is_some()
            && shell_arrived),
        node_removed_by_update(shell, shell_arrived).is_some() ==> node_removed_by_update(
            shell,
            shell_arrived,
        ).unwrap() == shell.unwrap().node_id,
        node_removed_by_update(shell, shell_arrived).is_some() <==> (shell.is_some()
            && attack_is_finished(shell, shell_arrived)),
        shell.is_some() && !shell_arrived ==> !attack_is_finished(shell, shell_arrived)
            && shell_after_update(shell, shell_arrived) == shell,
        shell.is_none() ==> attack_is_finished(shell, shell_arrived),
{
}

} // verus!
