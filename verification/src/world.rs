//! The shared simulation world: the character arena, their guns, the live
//! projectiles and the control-source assignment table, together with the
//! character spawner.

use std::collections::HashMap;

use vstd::prelude::*;

use crate::action::EntityId;
use crate::character::{
    character_from_bundle, characters_wf, AimRotation, BodyParams, CharacterController,
    CharacterControllerBundle, ColliderShape, MaxSlopeAngle, ShapeCasterConfig,
    CASTER_MAX_DISTANCE, CASTER_SHRINK,
};
use crate::input::GamepadSnapshot;
use crate::weapons::{guns_wf, Gun, Projectile};

verus! {

broadcast use vstd::std_specs::hash::group_hash_axioms;

/// Acceleration given to spawned characters, world units per second
/// squared.
pub const SPAWN_ACCELERATION: u32 = 1250;

/// Damping factor given to spawned characters, per-mille retained per
/// frame.
pub const SPAWN_DAMPING: u32 = 920;

/// Jump impulse given to spawned characters: 800 world units per second,
/// in micro-units per second.
pub const SPAWN_JUMP_IMPULSE: i64 = 800 * crate::units::MICRO;

/// Slope limit given to spawned characters: the cosine of thirty degrees,
/// per-mille.
pub const SPAWN_MAX_SLOPE_COS: i32 = 866;

/// Where spawned characters appear, nano-units.
pub const SPAWN_POS_X: i64 = 50 * crate::units::NANO;

/// Where spawned characters appear, nano-units.
pub const SPAWN_POS_Y: i64 = -100 * crate::units::NANO;

/// Capsule radius of a spawned character's collider: twelve and a half
/// world units, in micro-units.
pub const SPAWN_CAPSULE_RADIUS: i64 = 12_500_000;

/// Capsule length of a spawned character's collider: twenty world units,
/// in micro-units.
pub const SPAWN_CAPSULE_LENGTH: i64 = 20 * crate::units::MICRO;

/// Collider density of a spawned character's body, per-mille.
pub const SPAWN_DENSITY: u32 = 2000;

/// Friction coefficient of a spawned character's body, per-mille
/// (combined with a contact's material by taking the minimum).
pub const SPAWN_FRICTION: u32 = 0;

/// Restitution coefficient of a spawned character's body, per-mille
/// (combined by minimum as well).
pub const SPAWN_RESTITUTION: u32 = 0;

/// Gravity multiplier of a spawned character's body, per-mille.
pub const SPAWN_GRAVITY_SCALE: u32 = 1500;

/// The reserved control-source identity of the keyboard.
pub const KEYBOARD_SOURCE: u32 = 5;

/// The control-source assignment table: each source (keyboard or one
/// gamepad) is bound to at most one character, and entries are only ever
/// added.  `first_bound` remembers the earliest bound character, the one
/// addressed by keyboard play.
pub struct PlayerAssignments {
    pub players: HashMap<u32, EntityId>,
    pub first_bound: Option<EntityId>,
}

impl PlayerAssignments {
    /// An empty table: no source bound.
    pub fn new() -> (r: PlayerAssignments)
        ensures
            r.players@ == Map::<u32, EntityId>::empty(),
            r.first_bound is None,
    {
        PlayerAssignments { players: HashMap::new(), first_bound: None }
    }
}

/// The mathematical state the spawner works on: the assignment table and
/// the character and gun arenas.
pub struct Roster {
    pub players: Map<u32, EntityId>,
    pub first: Option<EntityId>,
    pub characters: Seq<CharacterController>,
    pub guns: Seq<Gun>,
}

/// The spawn-time body material.
pub open spec fn spawn_body_params() -> BodyParams {
    BodyParams {
        density: SPAWN_DENSITY,
        friction: SPAWN_FRICTION,
        restitution: SPAWN_RESTITUTION,
        gravity_scale: SPAWN_GRAVITY_SCALE,
    }
}

/// The bundle every spawned character is built from.
pub open spec fn spawn_bundle() -> CharacterControllerBundle {
    CharacterControllerBundle {
        collider: ColliderShape { radius: SPAWN_CAPSULE_RADIUS, length: SPAWN_CAPSULE_LENGTH },
        ground_caster: ShapeCasterConfig {
            shape: ColliderShape {
                radius: (SPAWN_CAPSULE_RADIUS * CASTER_SHRINK / 1000) as i64,
                length: (SPAWN_CAPSULE_LENGTH * CASTER_SHRINK / 1000) as i64,
            },
            max_distance: CASTER_MAX_DISTANCE,
        },
        movement: crate::character::movement_bundle(
            SPAWN_ACCELERATION,
            SPAWN_DAMPING,
            SPAWN_JUMP_IMPULSE,
            AimRotation { x: 0i32, y: -1000i32 },
            Some(MaxSlopeAngle(SPAWN_MAX_SLOPE_COS)),
            false,
        ),
    }
}

/// The complete runtime state of a freshly spawned character.
pub open spec fn spawn_profile() -> CharacterController {
    character_from_bundle(spawn_bundle(), SPAWN_POS_X, SPAWN_POS_Y, spawn_body_params())
}

/// A roster after binding `source` to a brand-new character: the character
/// and its gun are appended, the table gains the pair, and the new
/// character becomes the first-bound one if none was.
pub open spec fn roster_bind(r: Roster, source: u32) -> Roster {
    let id = r.characters.len() as EntityId;
    Roster {
        players: r.players.insert(source, id),
        first: if r.first is None {
            Some(id)
        } else {
            r.first
        },
        characters: r.characters.push(spawn_profile()),
        guns: r.guns.push(Gun { owner: id, rotation: spawn_profile().aim }),
    }
}

/// One spawn request: honoured only when the trigger is pressed and the
/// source is not yet bound; a request from a bound source changes nothing.
pub open spec fn roster_spawn_request(r: Roster, source: u32, trigger: bool) -> Roster {
    if trigger && !r.players.contains_key(source) {
        roster_bind(r, source)
    } else {
        r
    }
}

/// The first `n` gamepads' spawn requests processed in order; the trigger
/// is the south button beyond the one-tenth threshold.
pub open spec fn run_spawn_requests(r: Roster, pads: Seq<GamepadSnapshot>, n: nat) -> Roster
    decreases n,
{
    if n == 0 {
        r
    } else {
        let prev = run_spawn_requests(r, pads, (n - 1) as nat);
        roster_spawn_request(prev, pads[n - 1].source, pads[n - 1].south > 100)
    }
}

/// Spawning preserves the sizes' relationship and well-formedness.
pub proof fn lemma_run_spawn_requests_wf(r: Roster, pads: Seq<GamepadSnapshot>, n: nat)
    requires
        characters_wf(r.characters),
        guns_wf(r.guns),
    ensures
        characters_wf(run_spawn_requests(r, pads, n).characters),
        guns_wf(run_spawn_requests(r, pads, n).guns),
        run_spawn_requests(r, pads, n).characters.len() >= r.characters.len(),
        run_spawn_requests(r, pads, n).characters.len() <= r.characters.len() + n,
    decreases n,
{
    if n > 0 {
        lemma_run_spawn_requests_wf(r, pads, (n - 1) as nat);
        let prev = run_spawn_requests(r, pads, (n - 1) as nat);
        let cur = run_spawn_requests(r, pads, n);
        assert(spawn_profile().wf());
        assert forall|i: int| 0 <= i < cur.characters.len() implies (
        #[trigger] cur.characters[i]).wf() by {
            if i < prev.characters.len() {
                assert(prev.characters[i].wf());
            }
        }
        assert forall|i: int| 0 <= i < cur.guns.len() implies (#[trigger] cur.guns[i]).wf() by {
            if i < prev.guns.len() {
                assert(prev.guns[i].wf());
            }
        }
    }
}

/// The assignment table's invariant: every bound source names an existing
/// character, no two sources share a character, and the first-bound
/// character exists whenever anything is bound.
pub open spec fn roster_valid(r: Roster) -> bool {
    &&& forall|s: u32| #[trigger]
        r.players.contains_key(s) ==> r.players[s] < r.characters.len()
    &&& forall|s1: u32, s2: u32| #![trigger r.players[s1], r.players[s2]]
        r.players.contains_key(s1) && r.players.contains_key(s2) && s1 != s2
            ==> r.players[s1] != r.players[s2]
    &&& match r.first {
        Some(id) => id < r.characters.len(),
        None => true,
    }
}

/// Binding a fresh source keeps the table valid: the new character is the
/// one just appended, which no other source can already name.
pub proof fn lemma_bind_keeps_roster_valid(r: Roster, source: u32)
    requires
        roster_valid(r),
        r.characters.len() <= usize::MAX,
    ensures
        roster_valid(roster_bind(r, source)),
{
    let b = roster_bind(r, source);
    let id = r.characters.len() as EntityId;
    assert forall|s: u32| #[trigger] b.players.contains_key(s) implies b.players[s]
        < b.characters.len() by {
        if s != source {
            assert(r.players.contains_key(s));
        }
    }
    assert forall|s1: u32, s2: u32| #![trigger b.players[s1], b.players[s2]]
        b.players.contains_key(s1) && b.players.contains_key(s2) && s1 != s2 implies b.players[s1]
        != b.players[s2] by {
        if s1 == source {
            assert(r.players.contains_key(s2));
            assert(r.players[s2] < r.characters.len());
        } else if s2 == source {
            assert(r.players.contains_key(s1));
            assert(r.players[s1] < r.characters.len());
        } else {
            assert(r.players.contains_key(s1));
            assert(r.players.contains_key(s2));
        }
    }
}

/// However many spawn requests are processed, the table stays valid:
/// distinct sources always end up bound to distinct characters.
pub proof fn lemma_spawns_keep_roster_valid(r: Roster, pads: Seq<GamepadSnapshot>, n: nat)
    requires
        roster_valid(r),
        characters_wf(r.characters),
        guns_wf(r.guns),
        r.characters.len() + n <= usize::MAX,
    ensures
        roster_valid(run_spawn_requests(r, pads, n)),
    decreases n,
{
    if n > 0 {
        lemma_spawns_keep_roster_valid(r, pads, (n - 1) as nat);
        lemma_run_spawn_requests_wf(r, pads, (n - 1) as nat);
        let prev = run_spawn_requests(r, pads, (n - 1) as nat);
        if pads[n - 1].south > 100 && !prev.players.contains_key(pads[n - 1].source) {
            lemma_bind_keeps_roster_valid(prev, pads[n - 1].source);
        }
    }
}

/// Spawn requests only ever add entries: a source that was bound stays
/// bound, to the same character.
pub proof fn lemma_spawn_request_keeps_bindings(r: Roster, source: u32, trigger: bool)
    ensures
        forall|s: u32| #[trigger]
            r.players.contains_key(s) ==> roster_spawn_request(r, source, trigger).players.contains_key(s)
                && roster_spawn_request(r, source, trigger).players[s] == r.players[s],
{
}

/// However many spawn requests run, existing bindings survive unchanged.
pub proof fn lemma_spawns_keep_bindings(r: Roster, pads: Seq<GamepadSnapshot>, n: nat)
    ensures
        forall|s: u32| #[trigger]
            r.players.contains_key(s) ==> run_spawn_requests(r, pads, n).players.contains_key(s)
                && run_spawn_requests(r, pads, n).players[s] == r.players[s],
    decreases n,
{
    if n > 0 {
        lemma_spawns_keep_bindings(r, pads, (n - 1) as nat);
        let prev = run_spawn_requests(r, pads, (n - 1) as nat);
        lemma_spawn_request_keeps_bindings(prev, pads[n - 1].source, pads[n - 1].south > 100);
    }
}

/// The roster currently held by the world's exec state.
pub open spec fn roster_of(
    assignments: PlayerAssignments,
    characters: Seq<CharacterController>,
    guns: Seq<Gun>,
) -> Roster {
    Roster {
        players: assignments.players@,
        first: assignments.first_bound,
        characters,
        guns,
    }
}

/// Creates a character with the default spawn tuning, attaches its gun and
/// binds it to `source` — unless `source` is already bound, in which case
/// nothing changes.  Returns whether a character was created.
pub fn bind_new_character(
    source: u32,
    assignments: &mut PlayerAssignments,
    characters: &mut Vec<CharacterController>,
    guns: &mut Vec<Gun>,
) -> (spawned: bool)
    requires
        characters_wf(old(characters)@),
        guns_wf(old(guns)@),
    ensures
        spawned == !old(assignments).players@.contains_key(source),
        roster_of(*final(assignments), final(characters)@, final(guns)@) == roster_spawn_request(
            roster_of(*old(assignments), old(characters)@, old(guns)@),
            source,
            true,
        ),
        characters_wf(final(characters)@),
        guns_wf(final(guns)@),
{
    let ghost orig = roster_of(*assignments, characters@, guns@);
    if assignments.players.contains_key(&source) {
        proof {
            assert(roster_of(*assignments, characters@, guns@) == orig);
        }
        false
    } else {
        let id: EntityId = characters.len();
        let bundle = CharacterControllerBundle::new(
            ColliderShape { radius: SPAWN_CAPSULE_RADIUS, length: SPAWN_CAPSULE_LENGTH },
        ).with_movement(
            SPAWN_ACCELERATION,
            SPAWN_DAMPING,
            SPAWN_JUMP_IMPULSE,
            AimRotation::identity(),
            Some(MaxSlopeAngle(SPAWN_MAX_SLOPE_COS)),
            false,
        );
        proof {
            assert(bundle == spawn_bundle());
        }
        let body = BodyParams {
            density: SPAWN_DENSITY,
            friction: SPAWN_FRICTION,
            restitution: SPAWN_RESTITUTION,
            gravity_scale: SPAWN_GRAVITY_SCALE,
        };
        let c = CharacterController::from_bundle(bundle, SPAWN_POS_X, SPAWN_POS_Y, body);
        characters.push(c);
        guns.push(Gun { owner: id, rotation: c.aim });
        assignments.players.insert(source, id);
        if assignments.first_bound.is_none() {
            assignments.first_bound = Some(id);
        }
        proof {
            let now = roster_of(*assignments, characters@, guns@);
            let want = roster_spawn_request(orig, source, true);
            assert(now.characters =~= want.characters);
            assert(now.guns =~= want.guns);
            assert(now.players =~= want.players);
        }
        true
    }
}

/// The character spawner: every gamepad whose spawn button (south) is
/// pressed beyond the threshold and whose source is not yet bound gets a
/// new character with the default tuning profile, a gun child, and an
/// assignment entry.  Requests from bound sources are ignored.
pub fn spawn_character(
    pads: &Vec<GamepadSnapshot>,
    assignments: &mut PlayerAssignments,
    characters: &mut Vec<CharacterController>,
    guns: &mut Vec<Gun>,
)
    requires
        characters_wf(old(characters)@),
        guns_wf(old(guns)@),
    ensures
        roster_of(*final(assignments), final(characters)@, final(guns)@) == run_spawn_requests(
            roster_of(*old(assignments), old(characters)@, old(guns)@),
            pads@,
            pads@.len() as nat,
        ),
        characters_wf(final(characters)@),
        guns_wf(final(guns)@),
{
    let ghost orig = roster_of(*assignments, characters@, guns@);
    let mut k: usize = 0;
    while k < pads.len()
        invariant
            k <= pads@.len(),
            characters_wf(orig.characters),
            guns_wf(orig.guns),
            roster_of(*assignments, characters@, guns@) == run_spawn_requests(
                orig,
                pads@,
                k as nat,
            ),
            characters_wf(characters@),
            guns_wf(guns@),
        decreases pads@.len() - k,
    {
        let pad = &pads[k];
        if pad.south > 100 {
            bind_new_character(pad.source, assignments, characters, guns);
        }
        proof {
            let cur = roster_of(*assignments, characters@, guns@);
            assert(cur == run_spawn_requests(orig, pads@, (k + 1) as nat));
        }
        k = k + 1;
    }
}

} // verus!
