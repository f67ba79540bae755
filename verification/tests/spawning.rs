use platformer_core::action::PlayerAction;
use platformer_core::character::{AimRotation, CharacterController, MaxSlopeAngle, MovementBundle};
use platformer_core::input::{gamepad_input, keyboard_input, GamepadSnapshot, KeyboardSnapshot};
use platformer_core::weapons::Gun;
use platformer_core::world::{
    bind_new_character, spawn_character, PlayerAssignments, KEYBOARD_SOURCE,
};

fn idle_pad(source: u32) -> GamepadSnapshot {
    GamepadSnapshot {
        source,
        left_stick_x: 0,
        south: 0,
        right_stick_x: 0,
        right_stick_y: 0,
        right_trigger: 0,
    }
}

fn idle_keyboard() -> KeyboardSnapshot {
    KeyboardSnapshot {
        left: false,
        right: false,
        jump_just_pressed: false,
        fire_just_pressed: false,
        spawn_just_pressed: false,
    }
}

#[test]
fn two_pads_spawning_in_one_frame_bind_two_distinct_characters() {
    let mut assignments = PlayerAssignments::new();
    let mut characters: Vec<CharacterController> = vec![];
    let mut guns: Vec<Gun> = vec![];
    let mut pad_a = idle_pad(3);
    pad_a.south = 500;
    let mut pad_b = idle_pad(8);
    pad_b.south = 500;
    let pads = vec![pad_a, pad_b];
    spawn_character(&pads, &mut assignments, &mut characters, &mut guns);
    assert_eq!(characters.len(), 2);
    assert_eq!(guns.len(), 2);
    assert_eq!(guns[0].owner, 0);
    assert_eq!(guns[1].owner, 1);
    assert_eq!(assignments.players.get(&3), Some(&0));
    assert_eq!(assignments.players.get(&8), Some(&1));
    assert_eq!(assignments.first_bound, Some(0));

    // A later press from an already-bound source creates nothing.
    spawn_character(&pads, &mut assignments, &mut characters, &mut guns);
    assert_eq!(characters.len(), 2);
    assert_eq!(assignments.players.len(), 2);
}

#[test]
fn spawn_requires_the_button_past_the_threshold() {
    let mut assignments = PlayerAssignments::new();
    let mut characters: Vec<CharacterController> = vec![];
    let mut guns: Vec<Gun> = vec![];
    let mut pad = idle_pad(1);
    pad.south = 100;
    spawn_character(&vec![pad], &mut assignments, &mut characters, &mut guns);
    assert!(characters.is_empty());
    pad.south = 101;
    spawn_character(&vec![pad], &mut assignments, &mut characters, &mut guns);
    assert_eq!(characters.len(), 1);
}

#[test]
fn spawned_character_carries_the_default_tuning_profile() {
    let mut assignments = PlayerAssignments::new();
    let mut characters: Vec<CharacterController> = vec![];
    let mut guns: Vec<Gun> = vec![];
    assert!(bind_new_character(4, &mut assignments, &mut characters, &mut guns));
    let c = &characters[0];
    assert_eq!(c.acceleration.0, 1250);
    assert_eq!(c.damping.0, 920);
    assert_eq!(c.jump_impulse.0, 800_000_000);
    assert_eq!(c.max_slope_angle, Some(MaxSlopeAngle(866)));
    assert_eq!(c.aim, AimRotation { x: 0, y: -1000 });
    assert!(!c.fire_impulse.0);
    assert!(!c.grounded);
    assert_eq!((c.vel_x, c.vel_y), (0, 0));
    assert_eq!(c.pos_x, 50_000_000_000);
    assert_eq!(c.pos_y, -100_000_000_000);
    assert_eq!(c.collider.radius, 12_500_000);
    assert_eq!(c.collider.length, 20_000_000);
    // The ground probe is the collider shrunk by one per cent.
    assert_eq!(c.ground_caster.shape.radius, 12_375_000);
    assert_eq!(c.ground_caster.shape.length, 19_800_000);
    assert_eq!(c.ground_caster.max_distance, 10_000_000);
    assert_eq!(c.body.density, 2000);
    assert_eq!(c.body.gravity_scale, 1500);
    // Binding the same source again is refused.
    assert!(!bind_new_character(4, &mut assignments, &mut characters, &mut guns));
    assert_eq!(characters.len(), 1);
}

#[test]
fn default_movement_bundle_values() {
    let b = MovementBundle::default();
    assert_eq!(b.acceleration.0, 30);
    assert_eq!(b.damping.0, 900);
    assert_eq!(b.jump_impulse.0, 200_000_000);
    assert_eq!(b.aiming, AimRotation { x: 0, y: -1000 });
    assert_eq!(b.max_slope_angle, Some(MaxSlopeAngle(156)));
    assert!(!b.fire_impulse.0);
}

#[test]
fn gamepad_emits_actions_only_for_bound_sources_in_order() {
    let mut assignments = PlayerAssignments::new();
    let mut characters: Vec<CharacterController> = vec![];
    let mut guns: Vec<Gun> = vec![];
    bind_new_character(7, &mut assignments, &mut characters, &mut guns);

    let mut bound = idle_pad(7);
    bound.left_stick_x = -600;
    bound.south = 400;
    bound.right_stick_x = 11;
    bound.right_stick_y = 0;
    bound.right_trigger = 900;
    let mut unbound = idle_pad(9);
    unbound.left_stick_x = 1000;
    unbound.south = 1000;

    let mut bus: Vec<PlayerAction> = vec![];
    gamepad_input(&vec![bound, unbound], &assignments, &mut bus);
    assert_eq!(
        bus,
        vec![
            PlayerAction::Move(0, -600),
            PlayerAction::Jump(0),
            PlayerAction::Aim(0, 11, 0),
            PlayerAction::Fire(0),
        ]
    );
}

#[test]
fn gamepad_dead_zones_emit_nothing() {
    let mut assignments = PlayerAssignments::new();
    let mut characters: Vec<CharacterController> = vec![];
    let mut guns: Vec<Gun> = vec![];
    bind_new_character(7, &mut assignments, &mut characters, &mut guns);

    let mut pad = idle_pad(7);
    pad.left_stick_x = 10;
    pad.south = 100;
    pad.right_stick_x = -10;
    pad.right_stick_y = 10;
    pad.right_trigger = 100;
    let mut bus: Vec<PlayerAction> = vec![];
    gamepad_input(&vec![pad], &assignments, &mut bus);
    assert!(bus.is_empty());
}

#[test]
fn keyboard_addresses_the_first_bound_character() {
    let mut assignments = PlayerAssignments::new();
    let mut characters: Vec<CharacterController> = vec![];
    let mut guns: Vec<Gun> = vec![];
    bind_new_character(2, &mut assignments, &mut characters, &mut guns);
    bind_new_character(6, &mut assignments, &mut characters, &mut guns);

    let mut kb = idle_keyboard();
    kb.right = true;
    kb.jump_just_pressed = true;
    let mut bus: Vec<PlayerAction> = vec![];
    keyboard_input(&kb, &mut assignments, &mut characters, &mut guns, &mut bus);
    assert_eq!(bus, vec![PlayerAction::Move(0, 1000), PlayerAction::Jump(0)]);
}

#[test]
fn keyboard_fire_key_aims_along_the_diagonal_then_fires() {
    let mut assignments = PlayerAssignments::new();
    let mut characters: Vec<CharacterController> = vec![];
    let mut guns: Vec<Gun> = vec![];
    bind_new_character(2, &mut assignments, &mut characters, &mut guns);

    let mut kb = idle_keyboard();
    kb.fire_just_pressed = true;
    let mut bus: Vec<PlayerAction> = vec![];
    keyboard_input(&kb, &mut assignments, &mut characters, &mut guns, &mut bus);
    assert_eq!(bus, vec![PlayerAction::Aim(0, 500, 500), PlayerAction::Fire(0)]);
}

#[test]
fn keyboard_with_both_direction_keys_or_none_emits_no_move() {
    let mut assignments = PlayerAssignments::new();
    let mut characters: Vec<CharacterController> = vec![];
    let mut guns: Vec<Gun> = vec![];
    bind_new_character(2, &mut assignments, &mut characters, &mut guns);

    let mut kb = idle_keyboard();
    kb.left = true;
    kb.right = true;
    let mut bus: Vec<PlayerAction> = vec![];
    keyboard_input(&kb, &mut assignments, &mut characters, &mut guns, &mut bus);
    assert!(bus.is_empty());
}

#[test]
fn keyboard_without_a_bound_character_emits_nothing() {
    let mut assignments = PlayerAssignments::new();
    let mut characters: Vec<CharacterController> = vec![];
    let mut guns: Vec<Gun> = vec![];
    let mut kb = idle_keyboard();
    kb.left = true;
    kb.jump_just_pressed = true;
    kb.fire_just_pressed = true;
    let mut bus: Vec<PlayerAction> = vec![];
    keyboard_input(&kb, &mut assignments, &mut characters, &mut guns, &mut bus);
    assert!(bus.is_empty());
    assert!(characters.is_empty());
}

#[test]
fn keyboard_spawn_key_binds_the_reserved_source_once() {
    let mut assignments = PlayerAssignments::new();
    let mut characters: Vec<CharacterController> = vec![];
    let mut guns: Vec<Gun> = vec![];
    let mut kb = idle_keyboard();
    kb.spawn_just_pressed = true;
    let mut bus: Vec<PlayerAction> = vec![];
    keyboard_input(&kb, &mut assignments, &mut characters, &mut guns, &mut bus);
    assert_eq!(characters.len(), 1);
    assert_eq!(assignments.players.get(&KEYBOARD_SOURCE), Some(&0));
    assert_eq!(assignments.first_bound, Some(0));

    // A second press is a duplicate binding and is ignored.
    keyboard_input(&kb, &mut assignments, &mut characters, &mut guns, &mut bus);
    assert_eq!(characters.len(), 1);
    assert_eq!(assignments.players.len(), 1);
}
