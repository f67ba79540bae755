//! The input translators: once per frame they turn raw device snapshots
//! into `PlayerAction` events for the characters bound to each control
//! source.

use vstd::prelude::*;

use crate::action::{actions_wf, EntityId, PlayerAction};
use crate::character::{characters_wf, CharacterController};
use crate::weapons::{guns_wf, Gun};
use crate::world::{
    bind_new_character, roster_of, roster_spawn_request, PlayerAssignments, Roster,
    KEYBOARD_SOURCE,
};

verus! {

/// Axis deflections below this per-mille threshold are ignored: no action
/// is emitted, which means "no change requested", not "reset".
pub const AXIS_THRESHOLD: i32 = 10;

/// Analog button readings must exceed this per-mille threshold to count as
/// pressed.
pub const BUTTON_THRESHOLD: i32 = 100;

/// The instantaneous state of one gamepad, read once per frame.  Sticks
/// are per-mille deflections in `[-1000, 1000]`; buttons are per-mille
/// readings in `[0, 1000]`.  `source` is the pad's stable control-source
/// identity.
#[derive(Clone, Copy, PartialEq, Eq, Debug)]
pub struct GamepadSnapshot {
    pub source: u32,
    pub left_stick_x: i32,
    pub south: i32,
    pub right_stick_x: i32,
    pub right_stick_y: i32,
    pub right_trigger: i32,
}

impl GamepadSnapshot {
    pub open spec fn wf(self) -> bool {
        &&& -1000 <= self.left_stick_x <= 1000
        &&& 0 <= self.south <= 1000
        &&& -1000 <= self.right_stick_x <= 1000
        &&& -1000 <= self.right_stick_y <= 1000
        &&& 0 <= self.right_trigger <= 1000
    }
}

/// Every pad in a snapshot list is well-formed.
pub open spec fn pads_wf(s: Seq<GamepadSnapshot>) -> bool {
    forall|i: int| 0 <= i < s.len() ==> (#[trigger] s[i]).wf()
}

/// The instantaneous keyboard state, read once per frame.  The movement
/// keys report being held; the jump, fire and spawn keys report having
/// just been pressed this frame.
#[derive(Clone, Copy, PartialEq, Eq, Debug)]
pub struct KeyboardSnapshot {
    pub left: bool,
    pub right: bool,
    pub jump_just_pressed: bool,
    pub fire_just_pressed: bool,
    pub spawn_just_pressed: bool,
}

/// The actions one pad emits for its bound character, in emission order:
/// a `Move` when the left stick leaves the dead zone, a `Jump` when the
/// south button is pressed, an `Aim` when the right stick leaves the dead
/// zone on either axis (otherwise the previous aim persists), and a `Fire`
/// when the trigger is pressed.
pub open spec fn pad_actions(pad: GamepadSnapshot, target: EntityId) -> Seq<PlayerAction> {
    let move_part: Seq<PlayerAction> = if pad.left_stick_x > AXIS_THRESHOLD || pad.left_stick_x
        < -AXIS_THRESHOLD {
        seq![PlayerAction::Move(target, pad.left_stick_x)]
    } else {
        Seq::empty()
    };
    let jump_part: Seq<PlayerAction> = if pad.south > BUTTON_THRESHOLD {
        seq![PlayerAction::Jump(target)]
    } else {
        Seq::empty()
    };
    let aim_part: Seq<PlayerAction> = if pad.right_stick_x > AXIS_THRESHOLD || pad.right_stick_x
        < -AXIS_THRESHOLD || pad.right_stick_y > AXIS_THRESHOLD || pad.right_stick_y
        < -AXIS_THRESHOLD {
        seq![PlayerAction::Aim(target, pad.right_stick_x, pad.right_stick_y)]
    } else {
        Seq::empty()
    };
    let fire_part: Seq<PlayerAction> = if pad.right_trigger > BUTTON_THRESHOLD {
        seq![PlayerAction::Fire(target)]
    } else {
        Seq::empty()
    };
    move_part + jump_part + aim_part + fire_part
}

/// The actions emitted by the first `n` pads, in pad order; pads whose
/// source has no bound character emit nothing.
pub open spec fn gamepad_emissions(
    pads: Seq<GamepadSnapshot>,
    players: Map<u32, EntityId>,
    n: nat,
) -> Seq<PlayerAction>
    decreases n,
{
    if n == 0 {
        Seq::empty()
    } else {
        let pad = pads[n - 1];
        gamepad_emissions(pads, players, (n - 1) as nat) + if players.contains_key(pad.source) {
            pad_actions(pad, players[pad.source])
        } else {
            Seq::empty()
        }
    }
}

/// Emitted pad actions are well-formed when the pads are.
pub proof fn lemma_gamepad_emissions_wf(
    pads: Seq<GamepadSnapshot>,
    players: Map<u32, EntityId>,
    n: nat,
)
    requires
        pads_wf(pads),
        n <= pads.len(),
    ensures
        actions_wf(gamepad_emissions(pads, players, n)),
    decreases n,
{
    if n > 0 {
        lemma_gamepad_emissions_wf(pads, players, (n - 1) as nat);
        assert(pads[n - 1].wf());
    }
}

/// Reads every gamepad and appends the actions for bound sources to the
/// action bus, in pad order.  Nothing else changes; pads without a bound
/// character are ignored.
pub fn gamepad_input(
    pads: &Vec<GamepadSnapshot>,
    assignments: &PlayerAssignments,
    bus: &mut Vec<PlayerAction>,
)
    requires
        pads_wf(pads@),
        actions_wf(old(bus)@),
    ensures
        final(bus)@ == old(bus)@ + gamepad_emissions(pads@, assignments.players@, pads@.len() as nat),
        actions_wf(final(bus)@),
{
    broadcast use vstd::std_specs::hash::group_hash_axioms;

    let ghost orig = bus@;
    let mut k: usize = 0;
    while k < pads.len()
        invariant
            k <= pads@.len(),
            pads_wf(pads@),
            actions_wf(orig),
            bus@ == orig + gamepad_emissions(pads@, assignments.players@, k as nat),
        decreases pads@.len() - k,
    {
        let pad = &pads[k];
        proof {
            assert(pads@[k as int].wf());
        }
        if let Some(target) = assignments.players.get(&pad.source) {
            let t: EntityId = *target;
            if pad.left_stick_x > AXIS_THRESHOLD || pad.left_stick_x < -AXIS_THRESHOLD {
                bus.push(PlayerAction::Move(t, pad.left_stick_x));
            }
            if pad.south > BUTTON_THRESHOLD {
                bus.push(PlayerAction::Jump(t));
            }
            if pad.right_stick_x > AXIS_THRESHOLD || pad.right_stick_x < -AXIS_THRESHOLD
                || pad.right_stick_y > AXIS_THRESHOLD || pad.right_stick_y < -AXIS_THRESHOLD {
                bus.push(PlayerAction::Aim(t, pad.right_stick_x, pad.right_stick_y));
            }
            if pad.right_trigger > BUTTON_THRESHOLD {
                bus.push(PlayerAction::Fire(t));
            }
        }
        proof {
            assert(bus@ =~= orig + gamepad_emissions(pads@, assignments.players@, (k + 1) as nat));
            lemma_gamepad_emissions_wf(pads@, assignments.players@, (k + 1) as nat);
        }
        k = k + 1;
    }
    proof {
        lemma_gamepad_emissions_wf(pads@, assignments.players@, pads@.len() as nat);
    }
}

/// The digital movement direction the keyboard requests, per-mille: right
/// minus left, each key counting as full deflection.
pub open spec fn keyboard_direction(kb: KeyboardSnapshot) -> i32 {
    if kb.right && !kb.left {
        1000i32
    } else if kb.left && !kb.right {
        -1000i32
    } else {
        0i32
    }
}

/// The actions the keyboard emits, addressed to the first-bound character
/// (keyboard play is not per-player addressable): a `Move` while a
/// direction key is held, a `Jump` on the jump key, and — on the fire key —
/// an `Aim` along the fixed diagonal followed by a `Fire`.  With no bound
/// character, nothing is emitted.
pub open spec fn keyboard_emissions(
    kb: KeyboardSnapshot,
    first: Option<EntityId>,
) -> Seq<PlayerAction> {
    match first {
        None => Seq::empty(),
        Some(t) => {
            let move_part: Seq<PlayerAction> = if keyboard_direction(kb) != 0 {
                seq![PlayerAction::Move(t, keyboard_direction(kb))]
            } else {
                Seq::empty()
            };
            let jump_part: Seq<PlayerAction> = if kb.jump_just_pressed {
                seq![PlayerAction::Jump(t)]
            } else {
                Seq::empty()
            };
            let fire_part: Seq<PlayerAction> = if kb.fire_just_pressed {
                seq![PlayerAction::Aim(t, 500i32, 500i32), PlayerAction::Fire(t)]
            } else {
                Seq::empty()
            };
            move_part + jump_part + fire_part
        },
    }
}

/// Reads the keyboard, appends its actions (addressed to the first-bound
/// character) to the action bus, and — on the spawn key — creates and
/// binds a character for the keyboard's reserved source if that source is
/// still unbound.
pub fn keyboard_input(
    kb: &KeyboardSnapshot,
    assignments: &mut PlayerAssignments,
    characters: &mut Vec<CharacterController>,
    guns: &mut Vec<Gun>,
    bus: &mut Vec<PlayerAction>,
)
    requires
        characters_wf(old(characters)@),
        guns_wf(old(guns)@),
        actions_wf(old(bus)@),
    ensures
        final(bus)@ == old(bus)@ + keyboard_emissions(*kb, old(assignments).first_bound),
        roster_of(*final(assignments), final(characters)@, final(guns)@) == roster_spawn_request(
            roster_of(*old(assignments), old(characters)@, old(guns)@),
            KEYBOARD_SOURCE,
            kb.spawn_just_pressed,
        ),
        actions_wf(final(bus)@),
        characters_wf(final(characters)@),
        guns_wf(final(guns)@),
{
    let ghost orig_bus = bus@;
    let dir: i32 = if kb.right && !kb.left {
        1000
    } else if kb.left && !kb.right {
        -1000
    } else {
        0
    };
    match assignments.first_bound {
        Some(t) => {
            if dir != 0 {
                bus.push(PlayerAction::Move(t, dir));
            }
            if kb.jump_just_pressed {
                bus.push(PlayerAction::Jump(t));
            }
            if kb.fire_just_pressed {
                bus.push(PlayerAction::Aim(t, 500, 500));
                bus.push(PlayerAction::Fire(t));
            }
        },
        None => {},
    }
    proof {
        assert(bus@ =~= orig_bus + keyboard_emissions(*kb, assignments.first_bound));
    }
    if kb.spawn_just_pressed {
        bind_new_character(KEYBOARD_SOURCE, assignments, characters, guns);
    }
}

} // verus!
