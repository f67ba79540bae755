//! The per-frame simulation pipeline over the whole world, in one fixed,
//! documented stage order.

use vstd::prelude::*;

use crate::action::PlayerAction;
use crate::character::{characters_wf, CharacterController};
use crate::grounded::{grounded_all, hits_wf, update_grounded, GroundHit};
use crate::input::{
    gamepad_emissions, gamepad_input, keyboard_emissions, keyboard_input, pads_wf,
    GamepadSnapshot, KeyboardSnapshot,
};
use crate::movement::{apply_movement_damping, damped_all, movement, resolve_actions};
use crate::weapons::{
    apply_aim_to_gun, guns_wf, move_objects, run_guns, step_projectiles, Gun, Projectile,
};
use crate::world::{
    roster_of, roster_spawn_request, run_spawn_requests, PlayerAssignments, Roster,
    KEYBOARD_SOURCE,
};

verus! {

/// The mathematical state of a whole world.
pub struct WorldModel {
    pub players: Map<u32, crate::action::EntityId>,
    pub first: Option<crate::action::EntityId>,
    pub characters: Seq<CharacterController>,
    pub guns: Seq<Gun>,
    pub projectiles: Seq<Projectile>,
}

impl WorldModel {
    /// The spawner-facing part of the model.
    pub open spec fn roster(self) -> Roster {
        Roster {
            players: self.players,
            first: self.first,
            characters: self.characters,
            guns: self.guns,
        }
    }

    pub open spec fn wf(self) -> bool {
        &&& characters_wf(self.characters)
        &&& guns_wf(self.guns)
    }
}

/// The shared simulation world: the character arena, their guns, the live
/// projectiles and the control-source assignment table.
pub struct World {
    pub characters: Vec<CharacterController>,
    pub guns: Vec<Gun>,
    pub projectiles: Vec<Projectile>,
    pub assignments: PlayerAssignments,
}

impl View for World {
    type V = WorldModel;

    open spec fn view(&self) -> WorldModel {
        WorldModel {
            players: self.assignments.players@,
            first: self.assignments.first_bound,
            characters: self.characters@,
            guns: self.guns@,
            projectiles: self.projectiles@,
        }
    }
}

impl World {
    /// An empty world: no characters, guns or projectiles, and an empty
    /// assignment table.
    pub fn new() -> (w: World)
        ensures
            w@.players == Map::<u32, crate::action::EntityId>::empty(),
            w@.first is None,
            w@.characters == Seq::<CharacterController>::empty(),
            w@.guns == Seq::<Gun>::empty(),
            w@.projectiles == Seq::<Projectile>::empty(),
            w@.wf(),
    {
        let w = World {
            characters: Vec::new(),
            guns: Vec::new(),
            projectiles: Vec::new(),
            assignments: PlayerAssignments::new(),
        };
        proof {
            assert(w@.characters =~= Seq::<CharacterController>::empty());
            assert(w@.guns =~= Seq::<Gun>::empty());
            assert(w@.projectiles =~= Seq::<Projectile>::empty());
        }
        w
    }
}

/// One whole simulation frame, as a function of the previous state and
/// this frame's inputs.  The stages run in this fixed order: keyboard
/// translation (including the keyboard's spawn key), gamepad translation,
/// grounded detection, damping, the weapon/aim stage, the projectile
/// lifecycle, the gamepad spawner, and finally the movement resolver
/// draining the bus filled by the two translators.
pub open spec fn frame_spec(
    w: WorldModel,
    kb: KeyboardSnapshot,
    pads: Seq<GamepadSnapshot>,
    hits: Seq<Vec<GroundHit>>,
    dt: int,
) -> WorldModel {
    let bus_kb = keyboard_emissions(kb, w.first);
    let r1 = roster_spawn_request(w.roster(), KEYBOARD_SOURCE, kb.spawn_just_pressed);
    let bus = bus_kb + gamepad_emissions(pads, r1.players, pads.len() as nat);
    let cs3 = grounded_all(r1.characters, hits);
    let cs4 = damped_all(cs3);
    let fired = run_guns(cs4, r1.guns, w.projectiles, r1.guns.len() as nat);
    let ps6 = step_projectiles(fired.2, dt);
    let r7 = run_spawn_requests(
        Roster { players: r1.players, first: r1.first, characters: fired.0, guns: fired.1 },
        pads,
        pads.len() as nat,
    );
    let cs8 = resolve_actions(r7.characters, bus, dt);
    WorldModel {
        players: r7.players,
        first: r7.first,
        characters: cs8,
        guns: r7.guns,
        projectiles: ps6,
    }
}

/// Control-source bindings persist: once a frame has bound a source to a
/// character, every later frame keeps that binding, unchanged.
pub proof fn lemma_frame_keeps_bindings(
    w: WorldModel,
    kb: KeyboardSnapshot,
    pads: Seq<GamepadSnapshot>,
    hits: Seq<Vec<GroundHit>>,
    dt: int,
)
    ensures
        forall|s: u32| #[trigger]
            w.players.contains_key(s) ==> frame_spec(w, kb, pads, hits, dt).players.contains_key(s)
                && frame_spec(w, kb, pads, hits, dt).players[s] == w.players[s],
{
    let r1 = roster_spawn_request(w.roster(), KEYBOARD_SOURCE, kb.spawn_just_pressed);
    crate::world::lemma_spawn_request_keeps_bindings(
        w.roster(),
        KEYBOARD_SOURCE,
        kb.spawn_just_pressed,
    );
    let cs4 = damped_all(grounded_all(r1.characters, hits));
    let fired = run_guns(cs4, r1.guns, w.projectiles, r1.guns.len() as nat);
    let mid = Roster { players: r1.players, first: r1.first, characters: fired.0, guns: fired.1 };
    crate::world::lemma_spawns_keep_bindings(mid, pads, pads.len() as nat);
    let out = run_spawn_requests(mid, pads, pads.len() as nat);
    assert(frame_spec(w, kb, pads, hits, dt).players == out.players);
    assert forall|s: u32| #[trigger] w.players.contains_key(s) implies out.players.contains_key(s)
        && out.players[s] == w.players[s] by {
        assert(w.roster().players == w.players);
        assert(r1.players.contains_key(s) && r1.players[s] == w.players[s]);
        assert(mid.players.contains_key(s));
    }
}

/// Advances the world by one frame of `dt_ms` milliseconds, given this
/// frame's device snapshots and the physics world's downward shape-cast
/// results (`hits` row `i` belongs to character `i`; characters beyond the
/// rows count as having none).  Equals `frame_spec` exactly.
pub fn advance_frame(
    world: &mut World,
    kb: &KeyboardSnapshot,
    pads: &Vec<GamepadSnapshot>,
    hits: &Vec<Vec<GroundHit>>,
    dt_ms: u32,
)
    requires
        old(world)@.wf(),
        pads_wf(pads@),
        forall|i: int| 0 <= i < hits@.len() ==> hits_wf(#[trigger] hits@[i]@),
    ensures
        final(world)@ == frame_spec(old(world)@, *kb, pads@, hits@, dt_ms as int),
        final(world)@.wf(),
{
    let ghost w0 = world@;
    let mut bus: Vec<PlayerAction> = Vec::new();
    proof {
        assert(bus@ =~= Seq::<PlayerAction>::empty());
    }
    keyboard_input(kb, &mut world.assignments, &mut world.characters, &mut world.guns, &mut bus);
    proof {
        assert(Seq::<PlayerAction>::empty() + keyboard_emissions(*kb, w0.first)
            =~= keyboard_emissions(*kb, w0.first));
        assert(roster_of(world.assignments, world.characters@, world.guns@)
            == roster_spawn_request(w0.roster(), KEYBOARD_SOURCE, kb.spawn_just_pressed));
    }
    let ghost r1 = roster_spawn_request(w0.roster(), KEYBOARD_SOURCE, kb.spawn_just_pressed);
    gamepad_input(pads, &world.assignments, &mut bus);
    update_grounded(&mut world.characters, hits);
    apply_movement_damping(&mut world.characters);
    apply_aim_to_gun(&mut world.characters, &mut world.guns, &mut world.projectiles);
    move_objects(&mut world.projectiles, dt_ms);
    crate::world::spawn_character(pads, &mut world.assignments, &mut world.characters, &mut world.guns);
    movement(dt_ms, &mut bus, &mut world.characters);
    proof {
        let expect = frame_spec(w0, *kb, pads@, hits@, dt_ms as int);
        assert(world@.players == expect.players);
        assert(world@.first == expect.first);
        assert(world@.guns == expect.guns);
        assert(world@.projectiles == expect.projectiles);
        assert(world@.characters == expect.characters);
    }
}

} // verus!
