//! Weapons and projectiles: aim propagation to the gun, projectile
//! spawning, and the projectile lifecycle (flight and expiry).

use vstd::prelude::*;

use crate::action::EntityId;
use crate::character::{characters_wf, AimRotation, CharacterController, FireImpulse};
use crate::math::{isqrt, lemma_sqrt_floor_bounds, sqrt_floor};
use crate::units::{clip_i64, tdiv};

verus! {

/// A weapon entity attached to exactly one character; its orientation is
/// copied from the owner's aim once per frame.
#[derive(Clone, Copy, PartialEq, Eq, Debug)]
pub struct Gun {
    pub owner: EntityId,
    pub rotation: AimRotation,
}

impl Gun {
    pub open spec fn wf(self) -> bool {
        self.rotation.wf()
    }
}

/// Every gun in an arena is well-formed.
pub open spec fn guns_wf(s: Seq<Gun>) -> bool {
    forall|i: int| 0 <= i < s.len() ==> (#[trigger] s[i]).wf()
}

/// A projectile in flight: constant velocity (micro-units per second),
/// position (nano-units) and remaining lifetime (milliseconds).
#[derive(Clone, Copy, PartialEq, Eq, Debug)]
pub struct Projectile {
    pub vel_x: i64,
    pub vel_y: i64,
    pub pos_x: i64,
    pub pos_y: i64,
    pub lifetime: i64,
}

/// Speed given to a spawned projectile: 500 world units per second, in
/// micro-units per second.
pub const MUZZLE_SPEED: i64 = 500 * crate::units::MICRO;

/// Initial remaining lifetime of a projectile, milliseconds (two seconds).
pub const PROJECTILE_LIFETIME: i64 = 2000;

/// Magnitude (floor) of an aim direction's per-mille vector.
pub open spec fn aim_norm(aim: AimRotation) -> int {
    sqrt_floor((aim.x * aim.x + aim.y * aim.y) as nat) as int
}

/// Horizontal launch velocity: the muzzle speed scaled by the aim
/// direction's normalised horizontal share, truncating toward zero.
pub open spec fn launch_vel_x(aim: AimRotation) -> int {
    tdiv(MUZZLE_SPEED * aim.x, aim_norm(aim))
}

/// Vertical launch velocity.
pub open spec fn launch_vel_y(aim: AimRotation) -> int {
    tdiv(MUZZLE_SPEED * aim.y, aim_norm(aim))
}

/// The projectile spawned for a firing character: launched from the
/// character's position along its aim direction, with the full initial
/// lifetime.  The stored aim carries the weapon's quarter-turn rest offset,
/// and the launch undoes that same offset, so the projectile flies along
/// the raw aim vector.
pub open spec fn spawned_projectile(c: CharacterController) -> Projectile {
    Projectile {
        vel_x: launch_vel_x(c.aim) as i64,
        vel_y: launch_vel_y(c.aim) as i64,
        pos_x: c.pos_x,
        pos_y: c.pos_y,
        lifetime: PROJECTILE_LIFETIME,
    }
}

/// A well-formed aim direction has a magnitude of at least one per-mille
/// step, so scaling by it is defined.
pub proof fn lemma_aim_norm_positive(aim: AimRotation)
    requires
        aim.wf(),
    ensures
        1 <= aim_norm(aim) <= 1415,
{
    let n = (aim.x * aim.x + aim.y * aim.y) as nat;
    assert(1 <= aim.x * aim.x + aim.y * aim.y <= 2_000_000) by (nonlinear_arith)
        requires
            -1000 <= aim.x <= 1000,
            -1000 <= aim.y <= 1000,
            !(aim.x == 0 && aim.y == 0),
    ;
    lemma_sqrt_floor_bounds(n);
    let r = sqrt_floor(n);
    assert(r >= 1) by {
        if r == 0 {
            assert(n < (r + 1) * (r + 1));
            assert((r + 1) * (r + 1) == 1) by (nonlinear_arith)
                requires
                    r == 0,
            ;
        }
    }
    assert(r <= 1415) by (nonlinear_arith)
        requires
            r * r <= n,
            n <= 2_000_000,
    ;
}

/// Computes the launch velocity of a projectile for an aim direction.
fn launch_velocity(aim: AimRotation) -> (v: (i64, i64))
    requires
        aim.wf(),
    ensures
        v.0 == launch_vel_x(aim),
        v.1 == launch_vel_y(aim),
{
    proof {
        lemma_aim_norm_positive(aim);
        assert(0 <= (aim.x as int) * (aim.x as int) <= 1_000_000 && 0 <= (aim.y as int) * (
        aim.y as int) <= 1_000_000) by (nonlinear_arith)
            requires
                -1000 <= (aim.x as int) <= 1000,
                -1000 <= (aim.y as int) <= 1000,
        ;
    }
    let sq: i64 = (aim.x as i64) * (aim.x as i64) + (aim.y as i64) * (aim.y as i64);
    let m: u64 = isqrt(sq as u64);
    proof {
        assert(m as int == aim_norm(aim));
        assert(-500_000_000_000 <= MUZZLE_SPEED * (aim.x as int) <= 500_000_000_000
            && -500_000_000_000 <= MUZZLE_SPEED * (aim.y as int) <= 500_000_000_000)
            by (nonlinear_arith)
            requires
                -1000 <= (aim.x as int) <= 1000,
                -1000 <= (aim.y as int) <= 1000,
        ;
    }
    let vx: i64 = crate::units::tdiv_i64(MUZZLE_SPEED * (aim.x as i64), m as i64);
    let vy: i64 = crate::units::tdiv_i64(MUZZLE_SPEED * (aim.y as i64), m as i64);
    (vx, vy)
}

/// One gun processed by the weapon stage: the owner's aim is copied onto
/// the gun; if the owner's fire intent is set, a projectile is spawned at
/// the owner's position along the aim, and the intent is cleared whether or
/// not anything was spawned.  A gun whose owner is gone does nothing.
pub open spec fn run_gun(
    cs: Seq<CharacterController>,
    gs: Seq<Gun>,
    ps: Seq<Projectile>,
    k: int,
) -> (Seq<CharacterController>, Seq<Gun>, Seq<Projectile>) {
    let o = gs[k].owner;
    if o < cs.len() {
        let c = cs[o as int];
        (
            cs.update(o as int, CharacterController { fire_impulse: FireImpulse(false), ..c }),
            gs.update(k, Gun { owner: o, rotation: c.aim }),
            if c.fire_impulse.0 {
                ps.push(spawned_projectile(c))
            } else {
                ps
            },
        )
    } else {
        (cs, gs, ps)
    }
}

/// The first `n` guns processed in order.
pub open spec fn run_guns(
    cs: Seq<CharacterController>,
    gs: Seq<Gun>,
    ps: Seq<Projectile>,
    n: nat,
) -> (Seq<CharacterController>, Seq<Gun>, Seq<Projectile>)
    decreases n,
{
    if n == 0 {
        (cs, gs, ps)
    } else {
        let prev = run_guns(cs, gs, ps, (n - 1) as nat);
        run_gun(prev.0, prev.1, prev.2, n - 1)
    }
}

/// Processing guns preserves the arena sizes, character well-formedness,
/// gun ownership and gun well-formedness.
pub proof fn lemma_run_guns_wf(
    cs: Seq<CharacterController>,
    gs: Seq<Gun>,
    ps: Seq<Projectile>,
    n: nat,
)
    requires
        characters_wf(cs),
        guns_wf(gs),
        n <= gs.len(),
    ensures
        run_guns(cs, gs, ps, n).0.len() == cs.len(),
        run_guns(cs, gs, ps, n).1.len() == gs.len(),
        characters_wf(run_guns(cs, gs, ps, n).0),
        guns_wf(run_guns(cs, gs, ps, n).1),
        forall|k: int|
            0 <= k < gs.len() ==> (#[trigger] run_guns(cs, gs, ps, n).1[k]).owner == gs[k].owner,
        forall|k: int| n <= k < gs.len() ==> #[trigger] run_guns(cs, gs, ps, n).1[k] == gs[k],
    decreases n,
{
    if n > 0 {
        lemma_run_guns_wf(cs, gs, ps, (n - 1) as nat);
        let prev = run_guns(cs, gs, ps, (n - 1) as nat);
        let o = prev.1[n - 1].owner;
        if o < prev.0.len() {
            assert(prev.0[o as int].wf());
            let cur = run_guns(cs, gs, ps, n);
            assert forall|i: int| 0 <= i < cur.0.len() implies (#[trigger] cur.0[i]).wf() by {
                assert(prev.0[i].wf());
            }
            assert forall|i: int| 0 <= i < cur.1.len() implies (#[trigger] cur.1[i]).wf() by {
                assert(prev.1[i].wf());
            }
        }
    }
}

/// Fire intent is consumed within the frame it is read: after the weapon
/// stage has processed a gun, its owner's fire intent is clear, and no
/// later gun re-latches it.
pub proof fn lemma_fire_intent_consumed(
    cs: Seq<CharacterController>,
    gs: Seq<Gun>,
    ps: Seq<Projectile>,
    n: nat,
)
    requires
        characters_wf(cs),
        guns_wf(gs),
        n <= gs.len(),
    ensures
        forall|k: int|
            0 <= k < n && gs[k].owner < cs.len() ==> !(#[trigger] run_guns(cs, gs, ps, n).0[
                gs[k].owner as int
            ]).fire_impulse.0,
    decreases n,
{
    if n > 0 {
        lemma_fire_intent_consumed(cs, gs, ps, (n - 1) as nat);
        lemma_run_guns_wf(cs, gs, ps, (n - 1) as nat);
        let prev = run_guns(cs, gs, ps, (n - 1) as nat);
        let cur = run_guns(cs, gs, ps, n);
        assert(prev.1[n - 1].owner == gs[n - 1].owner);
        assert forall|k: int|
            0 <= k < n && gs[k].owner < cs.len() implies !(#[trigger] cur.0[
            gs[k].owner as int
        ]).fire_impulse.0 by {
            if k < n - 1 {
                assert(!prev.0[gs[k].owner as int].fire_impulse.0);
            }
        }
    }
}

/// The weapon stage: for each gun in order, copies the owning character's
/// aim orientation onto the gun, spawns a projectile if the owner's fire
/// intent is set, then clears the intent.
pub fn apply_aim_to_gun(
    characters: &mut Vec<CharacterController>,
    guns: &mut Vec<Gun>,
    projectiles: &mut Vec<Projectile>,
)
    requires
        characters_wf(old(characters)@),
        guns_wf(old(guns)@),
    ensures
        final(characters)@ == run_guns(old(characters)@, old(guns)@, old(projectiles)@, old(guns)@.len() as nat).0,
        final(guns)@ == run_guns(old(characters)@, old(guns)@, old(projectiles)@, old(guns)@.len() as nat).1,
        final(projectiles)@ == run_guns(old(characters)@, old(guns)@, old(projectiles)@, old(guns)@.len() as nat).2,
        final(characters)@.len() == old(characters)@.len(),
        final(guns)@.len() == old(guns)@.len(),
        characters_wf(final(characters)@),
        guns_wf(final(guns)@),
{
    let ghost orig_cs = characters@;
    let ghost orig_gs = guns@;
    let ghost orig_ps = projectiles@;
    let n = guns.len();
    let mut k: usize = 0;
    while k < n
        invariant
            k <= n,
            n == orig_gs.len(),
            characters_wf(orig_cs),
            guns_wf(orig_gs),
            characters@ == run_guns(orig_cs, orig_gs, orig_ps, k as nat).0,
            guns@ == run_guns(orig_cs, orig_gs, orig_ps, k as nat).1,
            projectiles@ == run_guns(orig_cs, orig_gs, orig_ps, k as nat).2,
        decreases n - k,
    {
        proof {
            lemma_run_guns_wf(orig_cs, orig_gs, orig_ps, k as nat);
        }
        let owner = guns[k].owner;
        if owner < characters.len() {
            let mut c = characters[owner];
            let mut g = guns[k];
            g.rotation = c.aim;
            guns[k] = g;
            if c.fire_impulse.0 {
                proof {
                    assert(c.wf());
                }
                let v = launch_velocity(c.aim);
                projectiles.push(
                    Projectile {
                        vel_x: v.0,
                        vel_y: v.1,
                        pos_x: c.pos_x,
                        pos_y: c.pos_y,
                        lifetime: PROJECTILE_LIFETIME,
                    },
                );
            }
            c.fire_impulse = FireImpulse(false);
            characters[owner] = c;
        }
        proof {
            assert(characters@ =~= run_guns(orig_cs, orig_gs, orig_ps, (k + 1) as nat).0);
            assert(guns@ =~= run_guns(orig_cs, orig_gs, orig_ps, (k + 1) as nat).1);
            assert(projectiles@ =~= run_guns(orig_cs, orig_gs, orig_ps, (k + 1) as nat).2);
        }
        k = k + 1;
    }
    proof {
        lemma_run_guns_wf(orig_cs, orig_gs, orig_ps, n as nat);
    }
}

/// One frame of flight: the position advances by the constant velocity
/// times the frame delta (exact on the nano-unit scale, pinned to the
/// representable range) and the remaining lifetime shrinks by the delta.
/// Meaningful for a projectile that is still alive (`lifetime > 0`).
pub open spec fn advance_projectile(p: Projectile, dt: int) -> Projectile
    recommends
        p.lifetime > 0,
        0 <= dt < 0x1_0000_0000,
{
    Projectile {
        vel_x: p.vel_x,
        vel_y: p.vel_y,
        pos_x: clip_i64(p.pos_x + p.vel_x * dt) as i64,
        pos_y: clip_i64(p.pos_y + p.vel_y * dt) as i64,
        lifetime: (p.lifetime - dt) as i64,
    }
}

/// One frame of the projectile lifecycle over a whole arena: projectiles
/// whose lifetime is exhausted are destroyed, the others advance.
pub open spec fn step_projectiles(ps: Seq<Projectile>, dt: int) -> Seq<Projectile>
    decreases ps.len(),
{
    if ps.len() == 0 {
        Seq::<Projectile>::empty()
    } else {
        let rest = step_projectiles(ps.drop_first(), dt);
        if ps[0].lifetime > 0 {
            seq![advance_projectile(ps[0], dt)] + rest
        } else {
            rest
        }
    }
}

/// The lifecycle step distributes over concatenation.
pub proof fn lemma_step_projectiles_concat(a: Seq<Projectile>, b: Seq<Projectile>, dt: int)
    ensures
        step_projectiles(a + b, dt) == step_projectiles(a, dt) + step_projectiles(b, dt),
    decreases a.len(),
{
    if a.len() == 0 {
        assert(a + b =~= b);
        assert(step_projectiles(a, dt) + step_projectiles(b, dt) =~= step_projectiles(b, dt));
    } else {
        assert((a + b).drop_first() =~= a.drop_first() + b);
        lemma_step_projectiles_concat(a.drop_first(), b, dt);
        if a[0].lifetime > 0 {
            assert(seq![advance_projectile(a[0], dt)] + (step_projectiles(a.drop_first(), dt)
                + step_projectiles(b, dt)) =~= (seq![advance_projectile(a[0], dt)]
                + step_projectiles(a.drop_first(), dt)) + step_projectiles(b, dt));
        }
    }
}

/// The projectile after `n` frames of flight, each of delta `dt`.
pub open spec fn projectile_after(p: Projectile, dt: int, n: nat) -> Projectile
    decreases n,
{
    if n == 0 {
        p
    } else {
        advance_projectile(projectile_after(p, dt, (n - 1) as nat), dt)
    }
}

/// Flight is exactly linear: after `n` frames of delta `dt`, a
/// projectile's position equals its initial position plus its velocity
/// times the total elapsed time `n * dt`, with no drift — provided the
/// final position is still representable (intermediate positions then are
/// too, since motion is monotone).  The velocity never changes.
pub proof fn lemma_projectile_linear_motion(p: Projectile, dt: int, n: nat)
    requires
        0 <= dt < 0x1_0000_0000,
        i64::MIN <= p.pos_x + p.vel_x * (n * dt) <= i64::MAX,
        i64::MIN <= p.pos_y + p.vel_y * (n * dt) <= i64::MAX,
    ensures
        projectile_after(p, dt, n).pos_x == p.pos_x + p.vel_x * (n * dt),
        projectile_after(p, dt, n).pos_y == p.pos_y + p.vel_y * (n * dt),
        projectile_after(p, dt, n).vel_x == p.vel_x,
        projectile_after(p, dt, n).vel_y == p.vel_y,
    decreases n,
{
    if n == 0 {
        assert(p.vel_x * (0 * dt) == 0) by (nonlinear_arith);
        assert(p.vel_y * (0 * dt) == 0) by (nonlinear_arith);
    } else {
        let m = (n - 1) as nat;
        lemma_flight_step_bounds(p.vel_x as int, dt, m);
        lemma_flight_step_bounds(p.vel_y as int, dt, m);
        lemma_projectile_linear_motion(p, dt, m);
        let q = projectile_after(p, dt, m);
        assert(q.pos_x + q.vel_x * dt == p.pos_x + p.vel_x * (n * dt)) by (nonlinear_arith)
            requires
                q.pos_x == p.pos_x + p.vel_x * (m * dt),
                q.vel_x == p.vel_x,
                m == n - 1,
        ;
        assert(q.pos_y + q.vel_y * dt == p.pos_y + p.vel_y * (n * dt)) by (nonlinear_arith)
            requires
                q.pos_y == p.pos_y + p.vel_y * (m * dt),
                q.vel_y == p.vel_y,
                m == n - 1,
        ;
        assert(clip_i64(q.pos_x + q.vel_x * dt) == p.pos_x + p.vel_x * (n * dt));
        assert(clip_i64(q.pos_y + q.vel_y * dt) == p.pos_y + p.vel_y * (n * dt));
    }
}

/// The distance flown after one frame fewer lies between zero and the
/// whole distance, so intermediate positions stay within the endpoints.
proof fn lemma_flight_step_bounds(vel: int, dt: int, m: nat)
    requires
        0 <= dt,
    ensures
        vel >= 0 ==> 0 <= vel * (m * dt) <= vel * ((m + 1) * dt),
        vel < 0 ==> vel * ((m + 1) * dt) <= vel * (m * dt) <= 0,
{
    assert(vel >= 0 ==> 0 <= vel * (m * dt) <= vel * ((m + 1) * dt)) by (nonlinear_arith)
        requires
            0 <= dt,
    ;
    assert(vel < 0 ==> vel * ((m + 1) * dt) <= vel * (m * dt) <= 0) by (nonlinear_arith)
        requires
            0 <= dt,
    ;
}

/// The frame (counted from zero) in which a projectile with remaining
/// lifetime `lifetime` is destroyed: the number of frames of delta `dt`
/// needed for the decrements to use the lifetime up, i.e. the ceiling of
/// `lifetime / dt`.
pub open spec fn expiry_frame(lifetime: int, dt: int) -> int {
    (lifetime + dt - 1) / dt
}

/// While it has not yet expired, a projectile's remaining lifetime after
/// `n` frames is exactly the initial lifetime minus the elapsed time.
pub proof fn lemma_projectile_lifetime(p: Projectile, dt: int, n: nat)
    requires
        0 < p.lifetime,
        0 < dt < 0x1_0000_0000,
        n <= expiry_frame(p.lifetime as int, dt),
    ensures
        projectile_after(p, dt, n).lifetime == p.lifetime - n * dt,
    decreases n,
{
    vstd::arithmetic::div_mod::lemma_fundamental_div_mod(p.lifetime + dt - 1, dt);
    if n > 0 {
        let m = (n - 1) as nat;
        lemma_projectile_lifetime(p, dt, m);
        assert(n * dt == m * dt + dt) by (nonlinear_arith)
            requires
                m == n - 1,
        ;
        assert(p.lifetime - m * dt > p.lifetime - expiry_frame(p.lifetime as int, dt) * dt)
            by (nonlinear_arith)
            requires
                m < expiry_frame(p.lifetime as int, dt),
                dt > 0,
        ;
        let e = expiry_frame(p.lifetime as int, dt);
        let r = (p.lifetime + dt - 1) % dt;
        assert(p.lifetime + dt - 1 == dt * e + r);
        assert(dt * e == e * dt) by (nonlinear_arith);
        assert(p.lifetime - e * dt == 1 - dt + r);
        assert(p.lifetime - m * dt >= 2 - dt + r);
        assert(projectile_after(p, dt, n).lifetime == (p.lifetime - m * dt - dt) as i64);
        assert(i64::MIN <= p.lifetime - n * dt <= i64::MAX);
    } else {
        assert(0 * dt == 0) by (nonlinear_arith);
    }
}

/// A projectile with positive remaining lifetime is destroyed exactly in
/// the frame numbered `expiry_frame` (counting the first lifecycle pass
/// after its spawn as frame zero), never earlier: it survives every frame
/// before that one and is removed in that one.
pub proof fn lemma_projectile_expiry(p: Projectile, dt: int, n: nat)
    requires
        0 < p.lifetime,
        0 < dt < 0x1_0000_0000,
        n <= expiry_frame(p.lifetime as int, dt),
    ensures
        n < expiry_frame(p.lifetime as int, dt) ==> projectile_after(p, dt, n).lifetime > 0,
        n == expiry_frame(p.lifetime as int, dt) ==> projectile_after(p, dt, n).lifetime <= 0,
{
    lemma_projectile_lifetime(p, dt, n);
    let e = expiry_frame(p.lifetime as int, dt);
    vstd::arithmetic::div_mod::lemma_fundamental_div_mod(p.lifetime + dt - 1, dt);
    let r = (p.lifetime + dt - 1) % dt;
    assert(p.lifetime + dt - 1 == dt * e + r);
    assert(dt * e == e * dt) by (nonlinear_arith);
    if n < e {
        assert(p.lifetime - n * dt >= p.lifetime - (e - 1) * dt) by (nonlinear_arith)
            requires
                n <= e - 1,
                dt > 0,
        ;
        assert((e - 1) * dt == e * dt - dt) by (nonlinear_arith);
        assert(p.lifetime - (e - 1) * dt == 1 + r);
    }
    if n == e {
        assert(p.lifetime - e * dt == 1 - dt + r);
        assert(r < dt) by {
            vstd::arithmetic::div_mod::lemma_mod_bound(p.lifetime + dt - 1, dt);
        }
    }
}

/// Advances one live projectile on machine integers.
fn advance_projectile_exec(p: Projectile, dt_ms: u32) -> (r: Projectile)
    requires
        p.lifetime > 0,
    ensures
        r == advance_projectile(p, dt_ms as int),
{
    proof {
        assert(-0x8000_0000_0000_0000_0000_0000i128 <= (p.vel_x as int) * (dt_ms as int)
            <= 0x8000_0000_0000_0000_0000_0000i128 && -0x8000_0000_0000_0000_0000_0000i128 <= (
        p.vel_y as int) * (dt_ms as int) <= 0x8000_0000_0000_0000_0000_0000i128)
            by (nonlinear_arith)
            requires
                i64::MIN <= (p.vel_x as int) <= i64::MAX,
                i64::MIN <= (p.vel_y as int) <= i64::MAX,
                0 <= (dt_ms as int) < 0x1_0000_0000,
        ;
    }
    let px: i64 = crate::units::clip_i128_to_i64(
        (p.pos_x as i128) + (p.vel_x as i128) * (dt_ms as i128),
    );
    let py: i64 = crate::units::clip_i128_to_i64(
        (p.pos_y as i128) + (p.vel_y as i128) * (dt_ms as i128),
    );
    Projectile {
        vel_x: p.vel_x,
        vel_y: p.vel_y,
        pos_x: px,
        pos_y: py,
        lifetime: p.lifetime - (dt_ms as i64),
    }
}

/// The projectile lifecycle stage: every projectile's position advances by
/// its velocity times the frame delta; a projectile whose remaining
/// lifetime was already exhausted is destroyed instead, and the others have
/// their lifetime reduced by the delta.  Order is preserved.
pub fn move_objects(projectiles: &mut Vec<Projectile>, dt_ms: u32)
    ensures
        final(projectiles)@ == step_projectiles(old(projectiles)@, dt_ms as int),
{
    let ghost orig = projectiles@;
    let mut out: Vec<Projectile> = Vec::new();
    let mut i: usize = 0;
    while i < projectiles.len()
        invariant
            i <= projectiles@.len(),
            projectiles@ == orig,
            out@ == step_projectiles(orig.take(i as int), dt_ms as int),
        decreases projectiles@.len() - i,
    {
        proof {
            assert(orig.take(i + 1) =~= orig.take(i as int) + seq![orig[i as int]]);
            lemma_step_projectiles_concat(orig.take(i as int), seq![orig[i as int]], dt_ms as int);
            let single = seq![orig[i as int]];
            assert(single.drop_first() =~= Seq::<Projectile>::empty());
            assert(step_projectiles(Seq::<Projectile>::empty(), dt_ms as int)
                == Seq::<Projectile>::empty());
            assert(step_projectiles(single.drop_first(), dt_ms as int)
                == Seq::<Projectile>::empty());
            if single[0].lifetime > 0 {
                assert(step_projectiles(single, dt_ms as int) =~= seq![
                    advance_projectile(single[0], dt_ms as int),
                ]);
            } else {
                assert(step_projectiles(single, dt_ms as int) =~= Seq::<Projectile>::empty());
            }
        }
        let p = projectiles[i];
        if p.lifetime > 0 {
            out.push(advance_projectile_exec(p, dt_ms));
        }
        proof {
            assert(out@ =~= step_projectiles(orig.take(i + 1), dt_ms as int));
        }
        i = i + 1;
    }
    proof {
        assert(orig.take(orig.len() as int) =~= orig);
    }
    *projectiles = out;
}

} // verus!
