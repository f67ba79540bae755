//! The grounded detector: a memoryless state machine that derives each
//! character's grounded flag from this frame's downward shape-cast hits.

use vstd::prelude::*;

use crate::character::{characters_wf, CharacterController, MaxSlopeAngle, Rotation2};
use crate::math::{isqrt, sqrt_floor};
use crate::units::tdiv;

verus! {

/// One shape-cast contact: the surface normal at the hit, a unit vector in
/// per-mille components, expressed in the character's local frame.
#[derive(Clone, Copy, PartialEq, Eq, Debug)]
pub struct GroundHit {
    pub normal_x: i32,
    pub normal_y: i32,
}

impl GroundHit {
    /// A unit normal has per-mille components in `[-1000, 1000]`.
    pub open spec fn wf(self) -> bool {
        &&& -1000 <= self.normal_x <= 1000
        &&& -1000 <= self.normal_y <= 1000
    }
}

/// Every hit in a row is well-formed.
pub open spec fn hits_wf(s: Seq<GroundHit>) -> bool {
    forall|i: int| 0 <= i < s.len() ==> (#[trigger] s[i]).wf()
}

/// The inverted hit normal rotated into world space, horizontal component
/// (per-mille, truncating).
pub open spec fn world_up_x(rot: Rotation2, hit: GroundHit) -> int {
    tdiv(rot.sin * hit.normal_y - rot.cos * hit.normal_x, 1000)
}

/// The inverted hit normal rotated into world space, vertical component
/// (per-mille, truncating).
pub open spec fn world_up_y(rot: Rotation2, hit: GroundHit) -> int {
    tdiv(-(rot.sin * hit.normal_x) - rot.cos * hit.normal_y, 1000)
}

/// Whether one hit counts as ground contact: the angle between the rotated,
/// inverted normal and "up" must not exceed the configured slope angle.
/// The comparison is made on cosines — the angle is small enough exactly
/// when the vector's vertical share is at least the threshold cosine times
/// the vector's magnitude.  With no configured angle, any hit qualifies.
pub open spec fn hit_qualifies(
    rot: Rotation2,
    hit: GroundHit,
    max_slope: Option<MaxSlopeAngle>,
) -> bool {
    match max_slope {
        None => true,
        Some(a) => {
            let wx = world_up_x(rot, hit);
            let wy = world_up_y(rot, hit);
            wy * 1000 >= a.0 * sqrt_floor((wx * wx + wy * wy) as nat)
        },
    }
}

/// Whether a row of hits grounds a character with the given rotation and
/// slope limit: at least one hit must qualify.  An empty row never grounds.
pub open spec fn grounded_from_hits(
    rot: Rotation2,
    max_slope: Option<MaxSlopeAngle>,
    row: Seq<GroundHit>,
) -> bool {
    exists|j: int| 0 <= j < row.len() && hit_qualifies(rot, #[trigger] row[j], max_slope)
}

/// The hit row for character `i`: characters beyond the cast results (for
/// example, spawned after the casts were taken) have no hits.
pub open spec fn hits_row(hits: Seq<Vec<GroundHit>>, i: int) -> Seq<GroundHit> {
    if 0 <= i < hits.len() {
        hits[i]@
    } else {
        Seq::<GroundHit>::empty()
    }
}

/// Product of two per-mille factors, with its range.
fn mul_pm(a: i32, b: i32) -> (r: i64)
    requires
        -1000 <= a <= 1000,
        -1000 <= b <= 1000,
    ensures
        r == a * b,
        -1_000_000 <= r <= 1_000_000,
{
    proof {
        assert(-1_000_000 <= (a as int) * (b as int) <= 1_000_000) by (nonlinear_arith)
            requires
                -1000 <= (a as int) <= 1000,
                -1000 <= (b as int) <= 1000,
        ;
    }
    (a as i64) * (b as i64)
}

/// Decides `hit_qualifies` on machine integers.
fn hit_qualifies_exec(rot: Rotation2, hit: GroundHit, max_slope: Option<MaxSlopeAngle>) -> (q:
    bool)
    requires
        rot.wf(),
        hit.wf(),
        match max_slope {
            Some(a) => a.wf(),
            None => true,
        },
    ensures
        q == hit_qualifies(rot, hit, max_slope),
{
    match max_slope {
        None => true,
        Some(a) => {
            let cx: i64 = mul_pm(rot.sin, hit.normal_y) - mul_pm(rot.cos, hit.normal_x);
            let cy: i64 = -mul_pm(rot.sin, hit.normal_x) - mul_pm(rot.cos, hit.normal_y);
            let wx: i64 = crate::units::tdiv_i64(cx, crate::units::MILLI);
            let wy: i64 = crate::units::tdiv_i64(cy, crate::units::MILLI);
            proof {
                assert(-2000 <= wx <= 2000 && -2000 <= wy <= 2000);
                assert(0 <= wx * wx <= 4_000_000 && 0 <= wy * wy <= 4_000_000)
                    by (nonlinear_arith)
                    requires
                        -2000 <= wx <= 2000,
                        -2000 <= wy <= 2000,
                ;
            }
            let sq: i64 = wx * wx + wy * wy;
            let m: u64 = isqrt(sq as u64);
            proof {
                assert(m * m <= 8_000_000);
                assert(m <= 2829) by (nonlinear_arith)
                    requires
                        m * m <= 8_000_000,
                ;
                assert(-2_829_000 <= (a.0 as int) * (m as int) <= 2_829_000)
                    by (nonlinear_arith)
                    requires
                        -1000 <= (a.0 as int) <= 1000,
                        0 <= (m as int) <= 2829,
                ;
            }
            wy * 1000 >= (a.0 as i64) * (m as i64)
        },
    }
}

/// Decides whether any hit in a row qualifies.
fn any_hit_qualifies(
    rot: Rotation2,
    max_slope: Option<MaxSlopeAngle>,
    row: &Vec<GroundHit>,
) -> (g: bool)
    requires
        rot.wf(),
        match max_slope {
            Some(a) => a.wf(),
            None => true,
        },
        hits_wf(row@),
    ensures
        g == grounded_from_hits(rot, max_slope, row@),
{
    let mut j: usize = 0;
    while j < row.len()
        invariant
            j <= row@.len(),
            rot.wf(),
            match max_slope {
                Some(a) => a.wf(),
                None => true,
            },
            hits_wf(row@),
            forall|k: int| 0 <= k < j ==> !hit_qualifies(rot, #[trigger] row@[k], max_slope),
        decreases row@.len() - j,
    {
        if hit_qualifies_exec(rot, row[j], max_slope) {
            return true;
        }
        j = j + 1;
    }
    false
}

/// A whole arena with every grounded flag freshly derived from this
/// frame's hit rows.
pub open spec fn grounded_all(
    cs: Seq<CharacterController>,
    hits: Seq<Vec<GroundHit>>,
) -> Seq<CharacterController> {
    Seq::new(
        cs.len(),
        |i: int|
            CharacterController {
                grounded: grounded_from_hits(cs[i].rotation, cs[i].max_slope_angle, hits_row(hits, i)),
                ..cs[i]
            },
    )
}

/// Recomputes every character's grounded flag from this frame's shape-cast
/// results: character `i` is grounded exactly when some hit in row `i` has
/// a world-space inverted normal within the character's slope limit of
/// "up".  Nothing else about the character changes.
pub fn update_grounded(characters: &mut Vec<CharacterController>, hits: &Vec<Vec<GroundHit>>)
    requires
        characters_wf(old(characters)@),
        forall|i: int| 0 <= i < hits@.len() ==> hits_wf(#[trigger] hits@[i]@),
    ensures
        final(characters)@ == grounded_all(old(characters)@, hits@),
        final(characters)@.len() == old(characters)@.len(),
        characters_wf(final(characters)@),
{
    let ghost orig = characters@;
    let n = characters.len();
    let mut i: usize = 0;
    while i < n
        invariant
            i <= n,
            n == orig.len(),
            characters@.len() == orig.len(),
            characters_wf(orig),
            forall|i2: int| 0 <= i2 < hits@.len() ==> hits_wf(#[trigger] hits@[i2]@),
            forall|j: int| i <= j < orig.len() ==> #[trigger] characters@[j] == orig[j],
            forall|j: int|
                0 <= j < i ==> #[trigger] characters@[j] == (CharacterController {
                    grounded: grounded_from_hits(
                        orig[j].rotation,
                        orig[j].max_slope_angle,
                        hits_row(hits@, j),
                    ),
                    ..orig[j]
                }),
        decreases n - i,
    {
        let mut c = characters[i];
        let g: bool = if i < hits.len() {
            any_hit_qualifies(c.rotation, c.max_slope_angle, &hits[i])
        } else {
            false
        };
        c.grounded = g;
        characters[i] = c;
        i = i + 1;
    }
    proof {
        assert(characters@ =~= grounded_all(orig, hits@));
    }
}

} // verus!
