//! The movement resolver and the damping stage.
//!
//! The resolver drains the frame's action bus in emission order and is the
//! only place where input changes a character's velocity, aim or fire
//! intent.  The damping stage then multiplies every character's horizontal
//! velocity by its retention factor once per frame.

use vstd::prelude::*;

use crate::action::{actions_wf, PlayerAction};
use crate::character::{characters_wf, AimRotation, CharacterController, FireImpulse};
use crate::units::{clip_i64, tdiv};

verus! {

/// The aim direction stored for an `Aim(x, y)` input.  A zero vector has no
/// direction; it is read as angle zero, i.e. the positive horizontal axis,
/// matching the convention that the angle of `(0, 0)` is zero.
pub open spec fn aim_from_input(x: i32, y: i32) -> AimRotation {
    if x == 0 && y == 0 {
        AimRotation { x: 1000i32, y: 0i32 }
    } else {
        AimRotation { x, y }
    }
}

/// The horizontal velocity after one `Move(dir)` action: the deflection
/// (per-mille) times the acceleration (units/s^2) times the frame delta
/// (ms) lands exactly on the micro-units-per-second scale and is added to
/// the velocity, pinned to the representable range.
pub open spec fn moved_velocity(v: int, dir: int, accel: int, dt: int) -> int {
    clip_i64(v + dir * accel * dt)
}

/// The horizontal velocity after one damping pass: the per-mille retention
/// factor is applied with truncation toward zero.
pub open spec fn damped_velocity(v: int, d: int) -> int {
    tdiv(v * d, 1000)
}

/// One action applied to the character it targets.
pub open spec fn apply_action_to(
    c: CharacterController,
    a: PlayerAction,
    dt: int,
) -> CharacterController {
    match a {
        PlayerAction::Move(_, dir) => CharacterController {
            vel_x: moved_velocity(c.vel_x as int, dir as int, c.acceleration.0 as int, dt) as i64,
            ..c
        },
        PlayerAction::Jump(_) => if c.grounded {
            CharacterController { vel_y: c.jump_impulse.0, ..c }
        } else {
            c
        },
        PlayerAction::Aim(_, x, y) => CharacterController { aim: aim_from_input(x, y), ..c },
        PlayerAction::Fire(_) => CharacterController { fire_impulse: FireImpulse(true), ..c },
    }
}

/// One action applied to an arena of characters: a stale target (index out
/// of range) is dropped silently.
pub open spec fn apply_action(
    s: Seq<CharacterController>,
    a: PlayerAction,
    dt: int,
) -> Seq<CharacterController> {
    if a.target() < s.len() {
        s.update(a.target() as int, apply_action_to(s[a.target() as int], a, dt))
    } else {
        s
    }
}

/// A whole queue of actions applied in emission order.
pub open spec fn resolve_actions(
    s: Seq<CharacterController>,
    actions: Seq<PlayerAction>,
    dt: int,
) -> Seq<CharacterController>
    decreases actions.len(),
{
    if actions.len() == 0 {
        s
    } else {
        resolve_actions(apply_action(s, actions[0], dt), actions.drop_first(), dt)
    }
}

/// Resolving a concatenation resolves the two halves in turn.
pub proof fn lemma_resolve_actions_concat(
    s: Seq<CharacterController>,
    a: Seq<PlayerAction>,
    b: Seq<PlayerAction>,
    dt: int,
)
    ensures
        resolve_actions(s, a + b, dt) == resolve_actions(resolve_actions(s, a, dt), b, dt),
    decreases a.len(),
{
    if a.len() == 0 {
        assert(a + b =~= b);
    } else {
        assert((a + b).drop_first() =~= a.drop_first() + b);
        lemma_resolve_actions_concat(apply_action(s, a[0], dt), a.drop_first(), b, dt);
    }
}

/// Extending the resolved prefix by one action applies that action last.
pub proof fn lemma_resolve_actions_take_succ(
    s: Seq<CharacterController>,
    actions: Seq<PlayerAction>,
    dt: int,
    i: int,
)
    requires
        0 <= i < actions.len(),
    ensures
        resolve_actions(s, actions.take(i + 1), dt) == apply_action(
            resolve_actions(s, actions.take(i), dt),
            actions[i],
            dt,
        ),
{
    assert(actions.take(i + 1) =~= actions.take(i) + seq![actions[i]]);
    lemma_resolve_actions_concat(s, actions.take(i), seq![actions[i]], dt);
    let s2 = resolve_actions(s, actions.take(i), dt);
    let single = seq![actions[i]];
    let s3 = apply_action(s2, single[0], dt);
    assert(resolve_actions(s2, single, dt) == resolve_actions(s3, single.drop_first(), dt));
    assert(single.drop_first().len() == 0);
    assert(resolve_actions(s3, single.drop_first(), dt) == s3);
}

/// Applying one well-formed action preserves character count and
/// well-formedness.
pub proof fn lemma_apply_action_wf(s: Seq<CharacterController>, a: PlayerAction, dt: int)
    requires
        characters_wf(s),
        a.wf(),
    ensures
        apply_action(s, a, dt).len() == s.len(),
        characters_wf(apply_action(s, a, dt)),
{
    let r = apply_action(s, a, dt);
    assert forall|i: int| 0 <= i < r.len() implies (#[trigger] r[i]).wf() by {
        assert(s[i].wf());
    }
}

/// Resolving a well-formed queue preserves character count and
/// well-formedness.
pub proof fn lemma_resolve_actions_wf(
    s: Seq<CharacterController>,
    actions: Seq<PlayerAction>,
    dt: int,
)
    requires
        characters_wf(s),
        actions_wf(actions),
    ensures
        resolve_actions(s, actions, dt).len() == s.len(),
        characters_wf(resolve_actions(s, actions, dt)),
    decreases actions.len(),
{
    if actions.len() > 0 {
        assert(actions[0].wf());
        lemma_apply_action_wf(s, actions[0], dt);
        assert(actions_wf(actions.drop_first())) by {
            assert(forall|i: int|
                0 <= i < actions.drop_first().len() ==> actions.drop_first()[i] == actions[i + 1]);
        }
        lemma_resolve_actions_wf(apply_action(s, actions[0], dt), actions.drop_first(), dt);
    }
}

/// Damping never speeds a character up: with a retention factor in
/// `(0, 1]`, the damped horizontal velocity is no larger in magnitude than
/// the velocity before, whatever its sign.
pub proof fn lemma_damping_contracts(v: int, d: int)
    requires
        0 < d <= 1000,
    ensures
        v >= 0 ==> 0 <= damped_velocity(v, d) <= v,
        v < 0 ==> v <= damped_velocity(v, d) <= 0,
{
    if v >= 0 {
        assert(v * d >= 0) by (nonlinear_arith)
            requires
                v >= 0,
                d > 0,
        ;
        lemma_damped_magnitude(v, d);
    } else {
        assert(v * d < 0) by (nonlinear_arith)
            requires
                v < 0,
                d > 0,
        ;
        assert((-v) * d == -(v * d)) by (nonlinear_arith);
        lemma_damped_magnitude(-v, d);
        assert(damped_velocity(v, d) == -(((-v) * d) / 1000));
    }
}

/// After one pass of the damping stage, no character's horizontal velocity
/// has grown in magnitude, and none has changed sign.
pub proof fn lemma_damping_stage_contracts(cs: Seq<CharacterController>)
    requires
        characters_wf(cs),
    ensures
        damped_all(cs).len() == cs.len(),
        forall|i: int|
            0 <= i < cs.len() && cs[i].vel_x >= 0 ==> 0 <= (#[trigger] damped_all(cs)[i]).vel_x
                <= cs[i].vel_x,
        forall|i: int|
            0 <= i < cs.len() && cs[i].vel_x < 0 ==> cs[i].vel_x
                <= (#[trigger] damped_all(cs)[i]).vel_x <= 0,
{
    assert forall|i: int| 0 <= i < cs.len() implies {
        &&& cs[i].vel_x >= 0 ==> 0 <= (#[trigger] damped_all(cs)[i]).vel_x <= cs[i].vel_x
        &&& cs[i].vel_x < 0 ==> cs[i].vel_x <= damped_all(cs)[i].vel_x <= 0
    } by {
        assert(cs[i].wf());
        lemma_damping_contracts(cs[i].vel_x as int, cs[i].damping.0 as int);
    }
}

/// The nonnegative-velocity case of `lemma_damping_contracts`.
proof fn lemma_damped_magnitude(v: int, d: int)
    requires
        v >= 0,
        0 < d <= 1000,
    ensures
        0 <= (v * d) / 1000 <= v,
{
    vstd::arithmetic::mul::lemma_mul_inequality(d, 1000, v);
    vstd::arithmetic::div_mod::lemma_div_is_ordered(v * d, v * 1000, 1000);
    vstd::arithmetic::div_mod::lemma_div_multiples_vanish(v, 1000);
    assert(v * d == d * v) by (nonlinear_arith);
    assert(v * 1000 == 1000 * v) by (nonlinear_arith);
    assert(v * d >= 0) by (nonlinear_arith)
        requires
            v >= 0,
            d > 0,
    ;
    vstd::arithmetic::div_mod::lemma_div_pos_is_pos(v * d, 1000);
}

/// A `Jump` action sets the target's vertical velocity to exactly its
/// configured jump impulse if and only if the target is grounded when the
/// action is resolved; an airborne target is left entirely unchanged, and
/// no other character or field is touched either way.
pub proof fn lemma_jump_iff_grounded(s: Seq<CharacterController>, t: crate::action::EntityId, dt: int)
    requires
        0 <= t < s.len(),
    ensures
        apply_action(s, PlayerAction::Jump(t), dt)[t as int].vel_y == if s[t as int].grounded {
            s[t as int].jump_impulse.0
        } else {
            s[t as int].vel_y
        },
        !s[t as int].grounded ==> apply_action(s, PlayerAction::Jump(t), dt) == s,
        apply_action(s, PlayerAction::Jump(t), dt)[t as int] == (CharacterController {
            vel_y: apply_action(s, PlayerAction::Jump(t), dt)[t as int].vel_y,
            ..s[t as int]
        }),
        forall|i: int|
            0 <= i < s.len() && i != t ==> apply_action(s, PlayerAction::Jump(t), dt)[i] == s[i],
{
    if !s[t as int].grounded {
        assert(apply_action(s, PlayerAction::Jump(t), dt) =~= s);
    }
}

/// Aiming is idempotent: applying the same `Aim` action twice leaves
/// exactly the state that applying it once does.
pub proof fn lemma_aim_idempotent(
    s: Seq<CharacterController>,
    t: crate::action::EntityId,
    x: i32,
    y: i32,
    dt: int,
)
    ensures
        apply_action(apply_action(s, PlayerAction::Aim(t, x, y), dt), PlayerAction::Aim(t, x, y), dt)
            == apply_action(s, PlayerAction::Aim(t, x, y), dt),
{
    let once = apply_action(s, PlayerAction::Aim(t, x, y), dt);
    let twice = apply_action(once, PlayerAction::Aim(t, x, y), dt);
    assert(twice =~= once);
}

/// Computes `moved_velocity` on machine integers: the product is formed in
/// a wide intermediate and the sum pinned to the `i64` range.
fn moved_velocity_exec(v: i64, dir: i32, accel: u32, dt: u32) -> (r: i64)
    requires
        -1000 <= dir <= 1000,
    ensures
        r == moved_velocity(v as int, dir as int, accel as int, dt as int),
{
    proof {
        assert(-0x3e8_0000_0000 <= (dir as int) * (accel as int) <= 0x3e8_0000_0000)
            by (nonlinear_arith)
            requires
                -1000 <= (dir as int) <= 1000,
                0 <= (accel as int) < 0x1_0000_0000,
        ;
    }
    let da: i128 = (dir as i128) * (accel as i128);
    proof {
        assert(-0x3e8_0000_0000_0000_0000i128 <= (da as int) * (dt as int)
            <= 0x3e8_0000_0000_0000_0000i128) by (nonlinear_arith)
            requires
                -0x3e8_0000_0000 <= (da as int) <= 0x3e8_0000_0000,
                0 <= (dt as int) < 0x1_0000_0000,
        ;
        assert((da as int) * (dt as int) == (dir as int) * (accel as int) * (dt as int))
            by (nonlinear_arith)
            requires
                da as int == (dir as int) * (accel as int),
        ;
    }
    let delta: i128 = da * (dt as i128);
    let sum: i128 = (v as i128) + delta;
    crate::units::clip_i128_to_i64(sum)
}

/// Computes `damped_velocity` on machine integers.  The scaled product
/// never leaves the `i64` range, because the retention factor is at most
/// one.
fn damped_velocity_exec(v: i64, d: u32) -> (r: i64)
    requires
        0 < d <= 1000,
    ensures
        r == damped_velocity(v as int, d as int),
{
    proof {
        assert(-0x3e8_0000_0000_0000_0000i128 <= (v as int) * (d as int)
            <= 0x3e8_0000_0000_0000_0000i128) by (nonlinear_arith)
            requires
                i64::MIN <= (v as int) <= i64::MAX,
                0 < (d as int) <= 1000,
        ;
    }
    let prod: i128 = (v as i128) * (d as i128);
    let q: i128 = if prod >= 0 {
        prod / 1000
    } else {
        -((-prod) / 1000)
    };
    proof {
        assert(q == tdiv((v as int) * (d as int), 1000));
        assert(i64::MIN <= q <= i64::MAX) by (nonlinear_arith)
            requires
                q == tdiv((v as int) * (d as int), 1000),
                i64::MIN <= (v as int) <= i64::MAX,
                0 < (d as int) <= 1000,
        ;
    }
    q as i64
}

/// Drains the action bus, in emission order, into the character arena.
///
/// Every action is applied exactly once: `Move` accumulates horizontal
/// velocity, `Jump` sets the vertical velocity to the jump impulse if and
/// only if the target is grounded, `Aim` replaces the aim orientation and
/// `Fire` latches fire intent.  Actions whose target index is out of range
/// are dropped.  The bus is left empty.
pub fn movement(
    dt_ms: u32,
    bus: &mut Vec<PlayerAction>,
    characters: &mut Vec<CharacterController>,
)
    requires
        actions_wf(old(bus)@),
        characters_wf(old(characters)@),
    ensures
        final(characters)@ == resolve_actions(old(characters)@, old(bus)@, dt_ms as int),
        final(characters)@.len() == old(characters)@.len(),
        characters_wf(final(characters)@),
        final(bus)@.len() == 0,
{
    let ghost orig_chars = characters@;
    let ghost orig_bus = bus@;
    let mut i: usize = 0;
    while i < bus.len()
        invariant
            i <= bus@.len(),
            bus@ == orig_bus,
            actions_wf(orig_bus),
            characters_wf(orig_chars),
            characters@ == resolve_actions(orig_chars, orig_bus.take(i as int), dt_ms as int),
        decreases bus@.len() - i,
    {
        proof {
            lemma_resolve_actions_take_succ(orig_chars, orig_bus, dt_ms as int, i as int);
            lemma_resolve_actions_wf(orig_chars, orig_bus.take(i as int), dt_ms as int);
        }
        let a = bus[i];
        proof {
            assert(orig_bus[i as int].wf());
        }
        match a {
            PlayerAction::Move(e, dir) => {
                if e < characters.len() {
                    let mut c = characters[e];
                    c.vel_x = moved_velocity_exec(c.vel_x, dir, c.acceleration.0, dt_ms);
                    characters[e] = c;
                }
            },
            PlayerAction::Jump(e) => {
                if e < characters.len() {
                    let mut c = characters[e];
                    if c.grounded {
                        c.vel_y = c.jump_impulse.0;
                        characters[e] = c;
                    }
                }
            },
            PlayerAction::Aim(e, x, y) => {
                if e < characters.len() {
                    let mut c = characters[e];
                    if x == 0 && y == 0 {
                        c.aim = AimRotation { x: 1000, y: 0 };
                    } else {
                        c.aim = AimRotation { x, y };
                    }
                    characters[e] = c;
                }
            },
            PlayerAction::Fire(e) => {
                if e < characters.len() {
                    let mut c = characters[e];
                    c.fire_impulse = FireImpulse(true);
                    characters[e] = c;
                }
            },
        }
        proof {
            assert(characters@ =~= resolve_actions(orig_chars, orig_bus.take(i + 1), dt_ms as int));
        }
        i = i + 1;
    }
    proof {
        assert(orig_bus.take(orig_bus.len() as int) =~= orig_bus);
        lemma_resolve_actions_wf(orig_chars, orig_bus, dt_ms as int);
    }
    bus.clear();
}

/// A whole arena after one damping pass.
pub open spec fn damped_all(cs: Seq<CharacterController>) -> Seq<CharacterController> {
    Seq::new(
        cs.len(),
        |i: int|
            CharacterController {
                vel_x: damped_velocity(cs[i].vel_x as int, cs[i].damping.0 as int) as i64,
                ..cs[i]
            },
    )
}

/// Multiplies every character's horizontal velocity by its per-mille
/// damping factor, truncating toward zero; vertical velocity is never
/// damped.
pub fn apply_movement_damping(characters: &mut Vec<CharacterController>)
    requires
        characters_wf(old(characters)@),
    ensures
        final(characters)@ == damped_all(old(characters)@),
        final(characters)@.len() == old(characters)@.len(),
        characters_wf(final(characters)@),
{
    let ghost orig = characters@;
    let n = characters.len();
    let mut i: usize = 0;
    while i < n
        invariant
            i <= n,
            n == orig.len(),
            characters@.len() == orig.len(),
            characters_wf(orig),
            forall|j: int|
                i <= j < orig.len() ==> #[trigger] characters@[j] == orig[j],
            forall|j: int|
                0 <= j < i ==> #[trigger] characters@[j] == (CharacterController {
                    vel_x: damped_velocity(orig[j].vel_x as int, orig[j].damping.0 as int) as i64,
                    ..orig[j]
                }),
        decreases n - i,
    {
        let mut c = characters[i];
        c.vel_x = damped_velocity_exec(c.vel_x, c.damping.0);
        characters[i] = c;
        i = i + 1;
    }
    proof {
        assert(characters@ =~= damped_all(orig));
    }
}

} // verus!
