//! Projecting the fixed screen-space anchor to the world-space point the
//! gizmo is drawn around.

use vstd::prelude::*;
use vstd::arithmetic::div_mod::lemma_div_is_ordered_by_denominator;
use vstd::arithmetic::div_mod::lemma_div_pos_is_pos;
use vstd::arithmetic::div_mod::lemma_fundamental_div_mod;
use vstd::arithmetic::div_mod::lemma_mod_bound;
use crate::geometry::MILLI;
use crate::geometry::Vec2Fix;
use crate::geometry::Vec3Fix;

verus! {

/// Largest viewport edge accepted, in thousandths of a pixel (sixteen
/// thousand pixels). Keeps the anchor products below `i64` range.
pub const VIEWPORT_LIMIT: i64 = 16000000;

/// Largest magnitude accepted for a ray origin coordinate, in thousandths of
/// a world unit (a billion units). Keeps the anchor sums below `i64` range.
pub const ORIGIN_LIMIT: i64 = 1000000000000;

/// Largest magnitude accepted for a ray direction coordinate, in thousandths
/// of a world unit; a unit direction needs no more than one thousand.
pub const DIRECTION_LIMIT: i64 = 1000000;

/// Largest magnitude an anchor coordinate can reach, in millionths of a
/// world unit, given the origin and direction bounds above.
pub const ANCHOR_LIMIT: i64 = 2000000000000000;

/// A world-space ray in thousandths of a unit, as the host's camera reports
/// it for a viewport point: where the ray starts and which way it leaves the
/// camera.
#[derive(Clone, Copy, PartialEq, Eq, Structural, Debug)]
pub struct GizmoRay {
    /// The ray's starting point, in thousandths of a world unit.
    pub origin: Vec3Fix,
    /// The ray's direction, in thousandths of a world unit; a unit-length
    /// direction has coordinates within one thousand.
    pub direction: Vec3Fix,
}

impl GizmoRay {
    /// Coordinate bounds under which the anchor arithmetic cannot overflow.
    pub open spec fn wf(self) -> bool {
        &&& -ORIGIN_LIMIT <= self.origin.x <= ORIGIN_LIMIT
        &&& -ORIGIN_LIMIT <= self.origin.y <= ORIGIN_LIMIT
        &&& -ORIGIN_LIMIT <= self.origin.z <= ORIGIN_LIMIT
        &&& -DIRECTION_LIMIT <= self.direction.x <= DIRECTION_LIMIT
        &&& -DIRECTION_LIMIT <= self.direction.y <= DIRECTION_LIMIT
        &&& -DIRECTION_LIMIT <= self.direction.z <= DIRECTION_LIMIT
    }
}

/// The pixel position of the anchor: the viewport size scaled by the anchor
/// fraction, exact in millionths of a pixel.
pub open spec fn anchor_pixel(viewport_size: Vec2Fix, fraction: Vec2Fix) -> Vec2Fix {
    Vec2Fix {
        x: (viewport_size.x * fraction.x) as i64,
        y: (viewport_size.y * fraction.y) as i64,
    }
}

/// Where on the viewport the anchor sits: the configured fraction of each
/// viewport edge, in millionths of a pixel. This is the point the host asks
/// its camera to cast a ray through.
pub fn viewport_anchor(viewport_size: Vec2Fix, fraction: Vec2Fix) -> (r: Vec2Fix)
    requires
        0 <= viewport_size.x <= VIEWPORT_LIMIT,
        0 <= viewport_size.y <= VIEWPORT_LIMIT,
        0 <= fraction.x <= MILLI,
        0 <= fraction.y <= MILLI,
    ensures
        r == anchor_pixel(viewport_size, fraction),
{
    proof {
        assert(0 <= viewport_size.x * fraction.x <= VIEWPORT_LIMIT * MILLI) by (nonlinear_arith)
            requires
                0 <= viewport_size.x <= VIEWPORT_LIMIT,
                0 <= fraction.x <= MILLI,
        ;
        assert(0 <= viewport_size.y * fraction.y <= VIEWPORT_LIMIT * MILLI) by (nonlinear_arith)
            requires
                0 <= viewport_size.y <= VIEWPORT_LIMIT,
                0 <= fraction.y <= MILLI,
        ;
    }
    Vec2Fix { x: viewport_size.x * fraction.x, y: viewport_size.y * fraction.y }
}

/// How far along its ray the anchor is placed, in thousandths of a unit: the
/// reciprocal of the configured radial size, so a larger on-screen size
/// draws the gizmo closer to the camera.
pub open spec fn anchor_depth(radial_size: int) -> int {
    (MILLI * MILLI) as int / radial_size
}

/// The anchor itself, in millionths of a world unit: the ray's origin plus
/// its direction scaled by the depth.
pub open spec fn anchor_point(ray: GizmoRay, radial_size: int) -> Vec3Fix {
    Vec3Fix {
        x: (ray.origin.x * MILLI + ray.direction.x * anchor_depth(radial_size)) as i64,
        y: (ray.origin.y * MILLI + ray.direction.y * anchor_depth(radial_size)) as i64,
        z: (ray.origin.z * MILLI + ray.direction.z * anchor_depth(radial_size)) as i64,
    }
}

/// Anchor scale invariance: within the configured range of radial sizes (at
/// most one world unit), a strictly larger radial size places the anchor
/// strictly closer to the camera — the depth along the ray strictly
/// decreases.
pub proof fn lemma_anchor_scale_invariance(small_size: int, large_size: int)
    requires
        0 < small_size < large_size <= MILLI,
    ensures
        anchor_depth(large_size) < anchor_depth(small_size),
{
    let n = (MILLI * MILLI) as int;
    let q1 = n / small_size;
    let q2 = n / large_size;
    lemma_fundamental_div_mod(n, small_size);
    lemma_fundamental_div_mod(n, large_size);
    lemma_mod_bound(n, small_size);
    lemma_mod_bound(n, large_size);
    let m1 = n % small_size;
    let m2 = n % large_size;
    assert(q2 >= MILLI) by (nonlinear_arith)
        requires
            n == large_size * q2 + m2,
            0 <= m2 < large_size,
            0 < large_size <= MILLI,
            n == MILLI * MILLI,
            MILLI == 1000,
    ;
    assert(q2 < q1) by (nonlinear_arith)
        requires
            n == small_size * q1 + m1,
            0 <= m1 < small_size,
            n == large_size * q2 + m2,
            0 <= m2 < large_size,
            0 < small_size < large_size <= MILLI,
            q2 >= MILLI,
            MILLI == 1000,
    ;
}

/// The depth the gizmo is drawn at, in thousandths of a unit.
pub fn depth_for_size(radial_size: i64) -> (r: i64)
    requires
        0 < radial_size,
    ensures
        r == anchor_depth(radial_size as int),
        0 <= r <= MILLI * MILLI,
{
    proof {
        lemma_div_pos_is_pos((MILLI * MILLI) as int, radial_size as int);
        lemma_div_is_ordered_by_denominator((MILLI * MILLI) as int, 1, radial_size as int);
    }
    let depth_wide: u64 = (MILLI * MILLI) as u64 / (radial_size as u64);
    depth_wide as i64
}

/// Projects the anchor into the world: the point `1 / radial_size` units
/// along the ray the host's camera cast through the anchor pixel. With no
/// ray — no camera bound, no viewport, a degenerate projection — there is no
/// anchor and the caller skips the frame.
pub fn compute_anchor(ray: Option<GizmoRay>, radial_size: i64) -> (r: Option<Vec3Fix>)
    requires
        ray matches Some(ray0) ==> ray0.wf(),
        0 < radial_size,
    ensures
        ray is None ==> r is None,
        ray matches Some(ray0) ==> r == Some(anchor_point(ray0, radial_size as int)),
        r matches Some(p) ==> -ANCHOR_LIMIT <= p.x <= ANCHOR_LIMIT && -ANCHOR_LIMIT <= p.y
            <= ANCHOR_LIMIT && -ANCHOR_LIMIT <= p.z <= ANCHOR_LIMIT,
{
    match ray {
        None => None,
        Some(ray0) => {
            let depth = depth_for_size(radial_size);
            proof {
                assert(-DIRECTION_LIMIT * (MILLI * MILLI) <= ray0.direction.x * depth
                    <= DIRECTION_LIMIT * (MILLI * MILLI)) by (nonlinear_arith)
                    requires
                        -DIRECTION_LIMIT <= ray0.direction.x <= DIRECTION_LIMIT,
                        0 <= depth <= MILLI * MILLI,
                ;
                assert(-DIRECTION_LIMIT * (MILLI * MILLI) <= ray0.direction.y * depth
                    <= DIRECTION_LIMIT * (MILLI * MILLI)) by (nonlinear_arith)
                    requires
                        -DIRECTION_LIMIT <= ray0.direction.y <= DIRECTION_LIMIT,
                        0 <= depth <= MILLI * MILLI,
                ;
                assert(-DIRECTION_LIMIT * (MILLI * MILLI) <= ray0.direction.z * depth
                    <= DIRECTION_LIMIT * (MILLI * MILLI)) by (nonlinear_arith)
                    requires
                        -DIRECTION_LIMIT <= ray0.direction.z <= DIRECTION_LIMIT,
                        0 <= depth <= MILLI * MILLI,
                ;
            }
            Some(
                Vec3Fix {
                    x: ray0.origin.x * MILLI + ray0.direction.x * depth,
                    y: ray0.origin.y * MILLI + ray0.direction.y * depth,
                    z: ray0.origin.z * MILLI + ray0.direction.z * depth,
                },
            )
        },
    }
}

} // verus!
