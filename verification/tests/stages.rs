use platformer_core::action::PlayerAction;
use platformer_core::character::{
    AimRotation, BodyParams, CharacterController, ColliderShape, FireImpulse, JumpImpulse,
    MaxSlopeAngle, MovementAcceleration, MovementDampingFactor, Rotation2, ShapeCasterConfig,
};
use platformer_core::grounded::{update_grounded, GroundHit};
use platformer_core::movement::{apply_movement_damping, movement};
use platformer_core::weapons::{apply_aim_to_gun, move_objects, Gun, Projectile};

fn test_character() -> CharacterController {
    CharacterController {
        acceleration: MovementAcceleration(1250),
        damping: MovementDampingFactor(920),
        jump_impulse: JumpImpulse(800_000_000),
        max_slope_angle: Some(MaxSlopeAngle(866)),
        aim: AimRotation { x: 0, y: -1000 },
        fire_impulse: FireImpulse(false),
        grounded: false,
        rotation: Rotation2 { cos: 1000, sin: 0 },
        vel_x: 0,
        vel_y: 0,
        pos_x: 0,
        pos_y: 0,
        collider: ColliderShape { radius: 12_500_000, length: 20_000_000 },
        ground_caster: ShapeCasterConfig {
            shape: ColliderShape { radius: 12_375_000, length: 19_800_000 },
            max_distance: 10_000_000,
        },
        body: BodyParams { density: 2000, friction: 0, restitution: 0, gravity_scale: 1500 },
    }
}

#[test]
fn move_at_full_deflection_adds_twenty_units_per_second() {
    // acceleration 1250 units/s^2, delta 16 ms, full deflection:
    // the horizontal velocity grows by exactly 20 units/s.
    let mut chars = vec![test_character()];
    let mut bus = vec![PlayerAction::Move(0, 1000)];
    movement(16, &mut bus, &mut chars);
    assert_eq!(chars[0].vel_x, 20_000_000);
    assert_eq!(chars[0].vel_y, 0);
    assert!(bus.is_empty());
}

#[test]
fn move_events_accumulate_additively() {
    let mut chars = vec![test_character()];
    let mut bus = vec![PlayerAction::Move(0, 1000), PlayerAction::Move(0, 1000)];
    movement(16, &mut bus, &mut chars);
    assert_eq!(chars[0].vel_x, 40_000_000);
}

#[test]
fn move_with_negative_deflection_subtracts() {
    let mut chars = vec![test_character()];
    let mut bus = vec![PlayerAction::Move(0, -500)];
    movement(16, &mut bus, &mut chars);
    // -500 * 1250 * 16 = -10_000_000 micro-units/s = -10 units/s.
    assert_eq!(chars[0].vel_x, -10_000_000);
}

#[test]
fn jump_while_grounded_sets_vertical_velocity_to_impulse() {
    let mut c = test_character();
    c.grounded = true;
    c.vel_y = -123_456;
    let mut chars = vec![c];
    let mut bus = vec![PlayerAction::Jump(0)];
    movement(16, &mut bus, &mut chars);
    assert_eq!(chars[0].vel_y, 800_000_000);
}

#[test]
fn jump_while_airborne_leaves_velocity_unchanged() {
    let mut c = test_character();
    c.grounded = false;
    c.vel_y = -123_456;
    c.vel_x = 777;
    let mut chars = vec![c];
    let mut bus = vec![PlayerAction::Jump(0)];
    movement(16, &mut bus, &mut chars);
    assert_eq!(chars[0].vel_y, -123_456);
    assert_eq!(chars[0].vel_x, 777);
}

#[test]
fn aim_twice_with_same_input_matches_aiming_once() {
    let mut once = vec![test_character()];
    let mut bus1 = vec![PlayerAction::Aim(0, 300, -400)];
    movement(16, &mut bus1, &mut once);

    let mut twice = vec![test_character()];
    let mut bus2 = vec![PlayerAction::Aim(0, 300, -400), PlayerAction::Aim(0, 300, -400)];
    movement(16, &mut bus2, &mut twice);

    assert_eq!(once[0].aim, twice[0].aim);
    assert_eq!(once[0].aim, AimRotation { x: 300, y: -400 });
}

#[test]
fn zero_aim_input_selects_positive_horizontal_axis() {
    let mut chars = vec![test_character()];
    let mut bus = vec![PlayerAction::Aim(0, 0, 0)];
    movement(16, &mut bus, &mut chars);
    assert_eq!(chars[0].aim, AimRotation { x: 1000, y: 0 });
}

#[test]
fn fire_latches_intent() {
    let mut chars = vec![test_character()];
    let mut bus = vec![PlayerAction::Fire(0)];
    movement(16, &mut bus, &mut chars);
    assert!(chars[0].fire_impulse.0);
}

#[test]
fn action_for_missing_character_is_dropped_silently() {
    let mut chars = vec![test_character()];
    let mut bus = vec![PlayerAction::Move(7, 1000), PlayerAction::Jump(3)];
    movement(16, &mut bus, &mut chars);
    assert_eq!(chars[0].vel_x, 0);
    assert_eq!(chars[0].vel_y, 0);
}

#[test]
fn damping_retains_the_configured_fraction() {
    let mut c = test_character();
    c.vel_x = 20_000_000;
    c.vel_y = 555;
    let mut chars = vec![c];
    apply_movement_damping(&mut chars);
    // 20_000_000 * 920 / 1000 = 18_400_000; vertical velocity untouched.
    assert_eq!(chars[0].vel_x, 18_400_000);
    assert_eq!(chars[0].vel_y, 555);
}

#[test]
fn damping_truncates_toward_zero_for_negative_velocity() {
    let mut c = test_character();
    c.damping = MovementDampingFactor(500);
    c.vel_x = -1001;
    let mut chars = vec![c];
    apply_movement_damping(&mut chars);
    // -1001 * 500 / 1000 = -500.5, truncated toward zero.
    assert_eq!(chars[0].vel_x, -500);
}

#[test]
fn damping_never_grows_magnitude() {
    for &v in &[0i64, 1, -1, 999, -999, 20_000_000, -20_000_000, i64::MAX, i64::MIN] {
        for &d in &[1u32, 500, 920, 999, 1000] {
            let mut c = test_character();
            c.damping = MovementDampingFactor(d);
            c.vel_x = v;
            let mut chars = vec![c];
            apply_movement_damping(&mut chars);
            assert!(chars[0].vel_x.unsigned_abs() <= v.unsigned_abs());
        }
    }
}

#[test]
fn flat_ground_hit_grounds_the_character() {
    // A flat floor: the inverted hit normal points straight up, well within
    // the thirty-degree slope limit.
    let mut chars = vec![test_character()];
    let hits = vec![vec![GroundHit { normal_x: 0, normal_y: -1000 }]];
    update_grounded(&mut chars, &hits);
    assert!(chars[0].grounded);
}

#[test]
fn steep_slope_hit_does_not_ground() {
    // A forty-five degree slope is steeper than the thirty-degree limit.
    let mut chars = vec![test_character()];
    let hits = vec![vec![GroundHit { normal_x: 707, normal_y: -707 }]];
    update_grounded(&mut chars, &hits);
    assert!(!chars[0].grounded);
}

#[test]
fn steep_slope_grounds_when_no_limit_is_configured() {
    let mut c = test_character();
    c.max_slope_angle = None;
    let mut chars = vec![c];
    let hits = vec![vec![GroundHit { normal_x: 707, normal_y: -707 }]];
    update_grounded(&mut chars, &hits);
    assert!(chars[0].grounded);
}

#[test]
fn no_hits_means_airborne() {
    let mut c = test_character();
    c.grounded = true;
    let mut chars = vec![c];
    let hits: Vec<Vec<GroundHit>> = vec![vec![]];
    update_grounded(&mut chars, &hits);
    assert!(!chars[0].grounded);
}

#[test]
fn character_beyond_cast_rows_counts_as_airborne() {
    let mut a = test_character();
    a.grounded = true;
    let mut b = test_character();
    b.grounded = true;
    let mut chars = vec![a, b];
    let hits = vec![vec![GroundHit { normal_x: 0, normal_y: -1000 }]];
    update_grounded(&mut chars, &hits);
    assert!(chars[0].grounded);
    assert!(!chars[1].grounded);
}

#[test]
fn firing_straight_down_launches_at_muzzle_speed() {
    // Aim orientation zero (the identity) stands for the direction
    // (0, -1): the spawned projectile flies straight down at exactly
    // 500 units/s, with the full two-second lifetime.
    let mut c = test_character();
    c.fire_impulse = FireImpulse(true);
    c.pos_x = 1_000;
    c.pos_y = 2_000;
    let mut chars = vec![c];
    let mut guns = vec![Gun { owner: 0, rotation: AimRotation { x: 1000, y: 0 } }];
    let mut projectiles: Vec<Projectile> = vec![];
    apply_aim_to_gun(&mut chars, &mut guns, &mut projectiles);
    assert_eq!(projectiles.len(), 1);
    assert_eq!(projectiles[0].vel_x, 0);
    assert_eq!(projectiles[0].vel_y, -500_000_000);
    assert_eq!(projectiles[0].pos_x, 1_000);
    assert_eq!(projectiles[0].pos_y, 2_000);
    assert_eq!(projectiles[0].lifetime, 2000);
    // The velocity magnitude is exactly 500 units/s.
    let speed_sq = (projectiles[0].vel_x as i128).pow(2) + (projectiles[0].vel_y as i128).pow(2);
    assert_eq!(speed_sq, (500_000_000i128).pow(2));
    // Fire intent is consumed, and the gun now carries the aim.
    assert!(!chars[0].fire_impulse.0);
    assert_eq!(guns[0].rotation, AimRotation { x: 0, y: -1000 });
}

#[test]
fn firing_along_an_axis_aligned_aim_is_exact() {
    let mut c = test_character();
    c.fire_impulse = FireImpulse(true);
    c.aim = AimRotation { x: 300, y: 0 };
    let mut chars = vec![c];
    let mut guns = vec![Gun { owner: 0, rotation: AimRotation { x: 0, y: -1000 } }];
    let mut projectiles: Vec<Projectile> = vec![];
    apply_aim_to_gun(&mut chars, &mut guns, &mut projectiles);
    assert_eq!(projectiles[0].vel_x, 500_000_000);
    assert_eq!(projectiles[0].vel_y, 0);
}

#[test]
fn weapon_stage_without_fire_intent_spawns_nothing() {
    let mut chars = vec![test_character()];
    let mut guns = vec![Gun { owner: 0, rotation: AimRotation { x: 1000, y: 0 } }];
    let mut projectiles: Vec<Projectile> = vec![];
    apply_aim_to_gun(&mut chars, &mut guns, &mut projectiles);
    assert!(projectiles.is_empty());
    assert_eq!(guns[0].rotation, AimRotation { x: 0, y: -1000 });
}

#[test]
fn dangling_gun_changes_nothing() {
    let mut chars: Vec<CharacterController> = vec![];
    let mut guns = vec![Gun { owner: 9, rotation: AimRotation { x: 1000, y: 0 } }];
    let mut projectiles: Vec<Projectile> = vec![];
    apply_aim_to_gun(&mut chars, &mut guns, &mut projectiles);
    assert!(projectiles.is_empty());
    assert_eq!(guns[0].rotation, AimRotation { x: 1000, y: 0 });
}

#[test]
fn projectile_position_is_exactly_linear_over_ten_frames() {
    let mut projectiles = vec![Projectile {
        vel_x: 3_000_000,
        vel_y: -1_000_000,
        pos_x: 0,
        pos_y: 0,
        lifetime: 2000,
    }];
    for _ in 0..10 {
        move_objects(&mut projectiles, 16);
    }
    // position = velocity * (10 * 16 ms), exactly, in nano-units.
    assert_eq!(projectiles[0].pos_x, 3_000_000i64 * 160);
    assert_eq!(projectiles[0].pos_y, -1_000_000i64 * 160);
    assert_eq!(projectiles[0].vel_x, 3_000_000);
    assert_eq!(projectiles[0].vel_y, -1_000_000);
}

#[test]
fn projectile_expires_exactly_at_the_ceiling_frame() {
    // lifetime 2000 ms, delta 16 ms: ceil(2000 / 16) = 125, so the
    // projectile survives frames 0..=124 and is destroyed in frame 125.
    let mut projectiles = vec![Projectile {
        vel_x: 0,
        vel_y: 0,
        pos_x: 0,
        pos_y: 0,
        lifetime: 2000,
    }];
    for _ in 0..125 {
        move_objects(&mut projectiles, 16);
        assert_eq!(projectiles.len(), 1);
    }
    assert_eq!(projectiles[0].lifetime, 0);
    move_objects(&mut projectiles, 16);
    assert!(projectiles.is_empty());
}

#[test]
fn projectile_expiry_with_uneven_delta() {
    // lifetime 2000 ms, delta 15 ms: ceil(2000 / 15) = 134.
    let mut projectiles = vec![Projectile {
        vel_x: 0,
        vel_y: 0,
        pos_x: 0,
        pos_y: 0,
        lifetime: 2000,
    }];
    for _ in 0..134 {
        move_objects(&mut projectiles, 15);
        assert_eq!(projectiles.len(), 1);
    }
    move_objects(&mut projectiles, 15);
    assert!(projectiles.is_empty());
}

#[test]
fn expired_projectiles_are_removed_and_order_is_kept() {
    let mut projectiles = vec![
        Projectile { vel_x: 1, vel_y: 0, pos_x: 10, pos_y: 0, lifetime: 100 },
        Projectile { vel_x: 2, vel_y: 0, pos_x: 20, pos_y: 0, lifetime: 0 },
        Projectile { vel_x: 3, vel_y: 0, pos_x: 30, pos_y: 0, lifetime: 100 },
    ];
    move_objects(&mut projectiles, 16);
    assert_eq!(projectiles.len(), 2);
    assert_eq!(projectiles[0].vel_x, 1);
    assert_eq!(projectiles[1].vel_x, 3);
    assert_eq!(projectiles[0].lifetime, 84);
}
