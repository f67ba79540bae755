//! Characters: tuning components, spawn bundles and the per-entity runtime
//! state that the simulation stages read and write.

use vstd::prelude::*;

verus! {

/// Acceleration for horizontal movement, in world units per second squared.
#[derive(Clone, Copy, PartialEq, Eq, Debug)]
pub struct MovementAcceleration(pub u32);

/// Fraction of the horizontal velocity retained by each damping pass,
/// per-mille in `(0, 1000]`.
#[derive(Clone, Copy, PartialEq, Eq, Debug)]
pub struct MovementDampingFactor(pub u32);

impl MovementDampingFactor {
    /// A damping factor is a retention fraction in `(0, 1]`.
    pub open spec fn wf(self) -> bool {
        0 < self.0 <= 1000
    }
}

/// Vertical velocity set by a successful jump, in micro-units per second.
#[derive(Clone, Copy, PartialEq, Eq, Debug)]
pub struct JumpImpulse(pub i64);

/// One-frame latch recording that the character requested a weapon
/// discharge; consumed and cleared by the weapon stage in the same frame.
#[derive(Clone, Copy, PartialEq, Eq, Debug)]
pub struct FireImpulse(pub bool);

/// The aim orientation of a character, kept as the last unnormalised aim
/// direction, components per-mille.  The orientation it stands for is the
/// direction's angle plus a fixed quarter turn (the weapon sprite's rest
/// orientation); the weapon stage undoes that quarter turn when it launches
/// a projectile, so a projectile flies along `(x, y)`.
///
/// The identity orientation is `(0, -1000)`: aiming straight down the
/// negative vertical axis.
#[derive(Clone, Copy, PartialEq, Eq, Debug)]
pub struct AimRotation {
    pub x: i32,
    pub y: i32,
}

impl AimRotation {
    /// Components are per-mille stick readings and never both zero, so the
    /// direction always has a positive magnitude.
    pub open spec fn wf(self) -> bool {
        &&& -1000 <= self.x <= 1000
        &&& -1000 <= self.y <= 1000
        &&& !(self.x == 0 && self.y == 0)
    }

    /// The identity orientation: straight down.
    pub fn identity() -> (r: AimRotation)
        ensures
            r == (AimRotation { x: 0i32, y: -1000i32 }),
    {
        AimRotation { x: 0i32, y: -1000i32 }
    }
}

/// Steepest slope a character can jump from, kept as the cosine of the
/// angle, per-mille in `[-1000, 1000]`.  A contact qualifies when the angle
/// between the inverted surface normal and "up" does not exceed the
/// configured angle, i.e. when its cosine is at least this value.
#[derive(Clone, Copy, PartialEq, Eq, Debug)]
pub struct MaxSlopeAngle(pub i32);

impl MaxSlopeAngle {
    /// A cosine lies in `[-1, 1]`.
    pub open spec fn wf(self) -> bool {
        -1000 <= self.0 <= 1000
    }
}

/// A 2D rotation as its cosine and sine, per-mille.
#[derive(Clone, Copy, PartialEq, Eq, Debug)]
pub struct Rotation2 {
    pub cos: i32,
    pub sin: i32,
}

impl Rotation2 {
    /// Cosine and sine of an angle lie in `[-1, 1]`.
    pub open spec fn wf(self) -> bool {
        &&& -1000 <= self.cos <= 1000
        &&& -1000 <= self.sin <= 1000
    }

    /// No rotation.
    pub fn identity() -> (r: Rotation2)
        ensures
            r == (Rotation2 { cos: 1000, sin: 0 }),
    {
        Rotation2 { cos: 1000, sin: 0 }
    }
}

/// Physics-material parameters handed to the physics world when a body is
/// registered, all per-mille.  Friction and restitution combine with a
/// contacting material by taking the minimum of the two coefficients.
#[derive(Clone, Copy, PartialEq, Eq, Debug)]
pub struct BodyParams {
    pub density: u32,
    pub friction: u32,
    pub restitution: u32,
    pub gravity_scale: u32,
}

/// A capsule collider: radius and cylinder length, in micro-units.
#[derive(Clone, Copy, PartialEq, Eq, Debug)]
pub struct ColliderShape {
    pub radius: i64,
    pub length: i64,
}

impl ColliderShape {
    /// Collider extents are nonnegative and no larger than a million world
    /// units, which keeps the probe-shrinking arithmetic in range.
    pub open spec fn wf(self) -> bool {
        &&& 0 <= self.radius <= 1_000_000_000_000
        &&& 0 <= self.length <= 1_000_000_000_000
    }
}

/// The downward ground probe: a shrunk copy of the character's collider,
/// cast over a fixed maximum distance (micro-units).
#[derive(Clone, Copy, PartialEq, Eq, Debug)]
pub struct ShapeCasterConfig {
    pub shape: ColliderShape,
    pub max_distance: i64,
}

/// The movement tuning attached to a character at spawn time.
#[derive(Clone, Copy, PartialEq, Eq, Debug)]
pub struct MovementBundle {
    pub acceleration: MovementAcceleration,
    pub damping: MovementDampingFactor,
    pub jump_impulse: JumpImpulse,
    pub aiming: AimRotation,
    pub max_slope_angle: Option<MaxSlopeAngle>,
    pub fire_impulse: FireImpulse,
}

/// The bundle assembled from the given tuning values, for contracts.
pub open spec fn movement_bundle(
    acceleration: u32,
    damping: u32,
    jump_impulse: i64,
    aiming: AimRotation,
    max_slope_angle: Option<MaxSlopeAngle>,
    fire_impulse: bool,
) -> MovementBundle {
    MovementBundle {
        acceleration: MovementAcceleration(acceleration),
        damping: MovementDampingFactor(damping),
        jump_impulse: JumpImpulse(jump_impulse),
        aiming,
        max_slope_angle,
        fire_impulse: FireImpulse(fire_impulse),
    }
}

/// The default movement tuning, for contracts.
pub open spec fn default_movement_bundle() -> MovementBundle {
    movement_bundle(
        30u32,
        900u32,
        200_000_000i64,
        AimRotation { x: 0i32, y: -1000i32 },
        Some(MaxSlopeAngle(156i32)),
        false,
    )
}

impl MovementBundle {
    pub open spec fn wf(self) -> bool {
        &&& self.damping.wf()
        &&& self.aiming.wf()
        &&& match self.max_slope_angle {
            Some(a) => a.wf(),
            None => true,
        }
    }

    pub fn new(
        acceleration: u32,
        damping: u32,
        jump_impulse: i64,
        aiming: AimRotation,
        max_slope_angle: Option<MaxSlopeAngle>,
        fire_impulse: bool,
    ) -> (r: MovementBundle)
        requires
            0 < damping <= 1000,
            aiming.wf(),
            match max_slope_angle {
                Some(a) => a.wf(),
                None => true,
            },
        ensures
            r == movement_bundle(
                acceleration,
                damping,
                jump_impulse,
                aiming,
                max_slope_angle,
                fire_impulse,
            ),
            r.wf(),
    {
        MovementBundle {
            acceleration: MovementAcceleration(acceleration),
            damping: MovementDampingFactor(damping),
            jump_impulse: JumpImpulse(jump_impulse),
            aiming,
            max_slope_angle,
            fire_impulse: FireImpulse(fire_impulse),
        }
    }
}

/// Conservative walking tuning: gentle acceleration, 0.9 retention per
/// frame, a 200 units/s jump and a steep default slope limit whose cosine
/// (156 per-mille) corresponds to just over four fifths of a right angle.
impl Default for MovementBundle {
    fn default() -> (r: MovementBundle)
        ensures
            r == default_movement_bundle(),
            r.wf(),
    {
        MovementBundle::new(
            30,
            900,
            200_000_000,
            AimRotation::identity(),
            Some(MaxSlopeAngle(156)),
            false,
        )
    }
}

/// Everything a kinematic character controller needs at spawn time: its
/// collider, the ground probe derived from it, and the movement tuning.
#[derive(Clone, Copy, PartialEq, Eq, Debug)]
pub struct CharacterControllerBundle {
    pub collider: ColliderShape,
    pub ground_caster: ShapeCasterConfig,
    pub movement: MovementBundle,
}

/// How much the ground probe's shape is shrunk relative to the collider,
/// per-mille.
pub const CASTER_SHRINK: i64 = 990;

/// How far below the character the ground probe reaches, in micro-units
/// (ten world units).
pub const CASTER_MAX_DISTANCE: i64 = 10_000_000;

impl CharacterControllerBundle {
    pub open spec fn wf(self) -> bool {
        self.movement.wf()
    }

    /// Builds a controller around `collider`, with the ground probe a
    /// slightly smaller copy of it and default movement tuning.
    pub fn new(collider: ColliderShape) -> (r: CharacterControllerBundle)
        requires
            collider.wf(),
        ensures
            r.collider == collider,
            r.ground_caster.shape.radius == collider.radius * CASTER_SHRINK / 1000,
            r.ground_caster.shape.length == collider.length * CASTER_SHRINK / 1000,
            r.ground_caster.max_distance == CASTER_MAX_DISTANCE,
            r.movement == default_movement_bundle(),
            r.wf(),
    {
        let caster_shape = ColliderShape {
            radius: (collider.radius * CASTER_SHRINK) / 1000,
            length: (collider.length * CASTER_SHRINK) / 1000,
        };
        CharacterControllerBundle {
            collider,
            ground_caster: ShapeCasterConfig { shape: caster_shape, max_distance: CASTER_MAX_DISTANCE },
            movement: MovementBundle::default(),
        }
    }

    /// Replaces the default movement tuning.
    pub fn with_movement(
        self,
        acceleration: u32,
        damping: u32,
        jump_impulse: i64,
        aiming: AimRotation,
        max_slope_angle: Option<MaxSlopeAngle>,
        fire_impulse: bool,
    ) -> (r: CharacterControllerBundle)
        requires
            0 < damping <= 1000,
            aiming.wf(),
            match max_slope_angle {
                Some(a) => a.wf(),
                None => true,
            },
        ensures
            r.collider == self.collider,
            r.ground_caster == self.ground_caster,
            r.movement == movement_bundle(
                acceleration,
                damping,
                jump_impulse,
                aiming,
                max_slope_angle,
                fire_impulse,
            ),
            r.movement.wf(),
    {
        CharacterControllerBundle {
            movement: MovementBundle::new(
                acceleration,
                damping,
                jump_impulse,
                aiming,
                max_slope_angle,
                fire_impulse,
            ),
            ..self
        }
    }
}

/// The runtime state of one controllable character.  Velocity and position
/// belong to the physics world; the simulation core reads and writes them
/// through this record.  `grounded` is recomputed from scratch every frame
/// and `fire_impulse` is consumed within the frame that sets it.
#[derive(Clone, Copy, PartialEq, Eq, Debug)]
pub struct CharacterController {
    pub acceleration: MovementAcceleration,
    pub damping: MovementDampingFactor,
    pub jump_impulse: JumpImpulse,
    pub max_slope_angle: Option<MaxSlopeAngle>,
    pub aim: AimRotation,
    pub fire_impulse: FireImpulse,
    pub grounded: bool,
    pub rotation: Rotation2,
    /// Horizontal velocity, micro-units per second.
    pub vel_x: i64,
    /// Vertical velocity, micro-units per second.
    pub vel_y: i64,
    /// Horizontal position, nano-units.
    pub pos_x: i64,
    /// Vertical position, nano-units.
    pub pos_y: i64,
    /// The collider registered for this character's body.
    pub collider: ColliderShape,
    /// The downward ground probe configuration for this character.
    pub ground_caster: ShapeCasterConfig,
    /// Material parameters of the character's physics body.
    pub body: BodyParams,
}

impl CharacterController {
    pub open spec fn wf(self) -> bool {
        &&& self.damping.wf()
        &&& self.aim.wf()
        &&& match self.max_slope_angle {
            Some(a) => a.wf(),
            None => true,
        }
        &&& self.rotation.wf()
    }
}

/// Every character in an arena is well-formed.
pub open spec fn characters_wf(s: Seq<CharacterController>) -> bool {
    forall|i: int| 0 <= i < s.len() ==> (#[trigger] s[i]).wf()
}

/// The runtime state a freshly spawned character starts from: the bundle's
/// tuning, the given position and body material, zero velocity, airborne,
/// unrotated, fire intent clear.
pub open spec fn character_from_bundle(
    bundle: CharacterControllerBundle,
    pos_x: i64,
    pos_y: i64,
    body: BodyParams,
) -> CharacterController {
    CharacterController {
        acceleration: bundle.movement.acceleration,
        damping: bundle.movement.damping,
        jump_impulse: bundle.movement.jump_impulse,
        max_slope_angle: bundle.movement.max_slope_angle,
        aim: bundle.movement.aiming,
        fire_impulse: bundle.movement.fire_impulse,
        grounded: false,
        rotation: Rotation2 { cos: 1000i32, sin: 0i32 },
        vel_x: 0,
        vel_y: 0,
        pos_x,
        pos_y,
        collider: bundle.collider,
        ground_caster: bundle.ground_caster,
        body,
    }
}

impl CharacterController {
    /// Builds the spawn-time state for a character from its bundle.
    pub fn from_bundle(
        bundle: CharacterControllerBundle,
        pos_x: i64,
        pos_y: i64,
        body: BodyParams,
    ) -> (c: CharacterController)
        requires
            bundle.wf(),
        ensures
            c == character_from_bundle(bundle, pos_x, pos_y, body),
            c.wf(),
    {
        CharacterController {
            acceleration: bundle.movement.acceleration,
            damping: bundle.movement.damping,
            jump_impulse: bundle.movement.jump_impulse,
            max_slope_angle: bundle.movement.max_slope_angle,
            aim: bundle.movement.aiming,
            fire_impulse: bundle.movement.fire_impulse,
            grounded: false,
            rotation: Rotation2 { cos: 1000, sin: 0 },
            vel_x: 0,
            vel_y: 0,
            pos_x,
            pos_y,
            collider: bundle.collider,
            ground_caster: bundle.ground_caster,
            body,
        }
    }
}

} // verus!
