//! The orientation controller: accumulated mouse motion becomes one clamped
//! vertical rotation step and one free horizontal rotation step per frame.

use vstd::prelude::*;
use crate::geometry::Vec2Fix;
use crate::gesture::gesture_active;
use crate::gesture::gesture_is_active;

verus! {

/// One radian counted in billionths: the scale of every angle here.
pub const NANO: i64 = 1000000000;

/// A half turn in billionths of a radian.
pub const PI_NANO: i64 = 3141592653;

/// Largest accumulated, sensitivity-scaled mouse delta the controller
/// accepts, in millionths of a pixel. Keeps every product below `i64` range.
pub const DELTA_LIMIT: i64 = 10000000000000;

/// Largest frame time accepted, in thousandths of a second (one hundred
/// seconds). Keeps every product below `i64` range.
pub const DT_LIMIT: i64 = 100000;

/// Largest single mouse event delta accepted, in thousandths of a pixel.
pub const MOUSE_STEP_LIMIT: i64 = 1000000;

/// Largest mouse sensitivity accepted, in thousandths (a tenfold gain).
pub const SENS_LIMIT: i64 = 10000;

/// Largest number of mouse events folded into one frame.
pub const EVENT_LIMIT: usize = 1000;

/// The orientation of one sun, reduced to what the controller reads and
/// writes of it: the tilt angle between the light's forward vector and world
/// up, and its yaw about the world up axis, both in billionths of a radian.
/// The host measures both from the light's rotation each frame and applies
/// the returned step back onto it.
#[derive(Clone, Copy, PartialEq, Eq, Structural, Debug)]
pub struct SunOrientation {
    /// Angle between the light's forward vector and world up; zero means the
    /// light shines straight up, a half turn straight down.
    pub tilt: i64,
    /// Rotation about the fixed world up axis.
    pub yaw: i64,
}

impl SunOrientation {
    /// The tilt is a measured angle between two vectors, so it lies in
    /// `[0, pi]`; the yaw is likewise measured, so it lies within a half
    /// turn of zero.
    pub open spec fn wf(self) -> bool {
        &&& 0 <= self.tilt <= PI_NANO
        &&& -PI_NANO <= self.yaw <= PI_NANO
    }
}

/// The smaller of two integers.
pub open spec fn min_int(a: int, b: int) -> int {
    if a <= b {
        a
    } else {
        b
    }
}

/// The vertical rotation the drag asks for this frame, before any clamp:
/// dragging the mouse up (negative `delta_y`) rotates the light toward world
/// up by a positive amount.
pub open spec fn vertical_request(delta_y: int, dt: int) -> int {
    -delta_y * dt
}

/// The vertical rotation actually applied: the request, capped at the tilt
/// still separating the forward vector from world up, so one step can never
/// carry the light past the pole.
pub open spec fn vertical_step(tilt: int, delta_y: int, dt: int) -> int {
    min_int(tilt, vertical_request(delta_y, dt))
}

/// The horizontal rotation applied about the fixed world up axis; it is
/// never clamped.
pub open spec fn horizontal_step(delta_x: int, dt: int) -> int {
    delta_x * dt
}

/// The orientation after one frame of active dragging: the vertical step is
/// taken off the tilt (rotating toward up shrinks the angle to up), the
/// horizontal step is added to the yaw. The host applies the steps in this
/// order — vertical about the light's right axis as it stood before the
/// step, then horizontal about the fixed world up axis, which keeps the
/// horizontal drag yaw-stable at any tilt.
pub open spec fn stepped(o: SunOrientation, delta: Vec2Fix, dt: int) -> SunOrientation {
    SunOrientation {
        tilt: (o.tilt - vertical_step(o.tilt as int, delta.y as int, dt)) as i64,
        yaw: (o.yaw + horizontal_step(delta.x as int, dt)) as i64,
    }
}

/// Clamp invariant: whatever the drag and frame time, the applied vertical
/// step never exceeds the tilt that remains, so the angle between the new
/// forward vector and world up stays non-negative — one step never overshoots
/// the pole.
pub proof fn lemma_vertical_clamp(tilt: int, delta_y: int, dt: int)
    requires
        0 <= tilt <= PI_NANO,
    ensures
        vertical_step(tilt, delta_y, dt) <= tilt,
        tilt - vertical_step(tilt, delta_y, dt) >= 0,
{
}

/// One controller step for one sun.
///
/// With the gesture inactive the orientation comes back untouched and no
/// rotation is reported. With it active, the accumulated drag is applied as
/// the clamped vertical step and the free horizontal step, and the new tilt
/// can never come out negative.
pub fn update(
    orientation: SunOrientation,
    gesture_active_now: bool,
    delta: Vec2Fix,
    dt: i64,
) -> (r: (SunOrientation, bool))
    requires
        orientation.wf(),
        -DELTA_LIMIT <= delta.x <= DELTA_LIMIT,
        -DELTA_LIMIT <= delta.y <= DELTA_LIMIT,
        0 <= dt <= DT_LIMIT,
    ensures
        !gesture_active_now ==> r == ((orientation, false)),
        gesture_active_now ==> r == ((stepped(orientation, delta, dt as int), true)),
        r.0.tilt >= 0,
{
    if !gesture_active_now {
        return (orientation, false);
    }
    proof {
        assert(-DELTA_LIMIT * DT_LIMIT <= -delta.y * dt <= DELTA_LIMIT * DT_LIMIT)
            by (nonlinear_arith)
            requires
                -DELTA_LIMIT <= delta.y <= DELTA_LIMIT,
                0 <= dt <= DT_LIMIT,
        ;
        assert(-DELTA_LIMIT * DT_LIMIT <= delta.x * dt <= DELTA_LIMIT * DT_LIMIT)
            by (nonlinear_arith)
            requires
                -DELTA_LIMIT <= delta.x <= DELTA_LIMIT,
                0 <= dt <= DT_LIMIT,
        ;
    }
    let request: i64 = -delta.y * dt;
    let vertical: i64 = if orientation.tilt <= request {
        orientation.tilt
    } else {
        request
    };
    let new_orientation = SunOrientation {
        tilt: orientation.tilt - vertical,
        yaw: orientation.yaw + delta.x * dt,
    };
    (new_orientation, true)
}

/// The first component of the frame's scaled mouse delta: every event's
/// horizontal motion, multiplied by the sensitivity.
pub open spec fn scaled_sum_x(events: Seq<Vec2Fix>, sensitivity: int) -> int
    decreases events.len(),
{
    if events.len() == 0 {
        0
    } else {
        scaled_sum_x(events.drop_last(), sensitivity) + events.last().x * sensitivity
    }
}

/// The second component of the frame's scaled mouse delta.
pub open spec fn scaled_sum_y(events: Seq<Vec2Fix>, sensitivity: int) -> int
    decreases events.len(),
{
    if events.len() == 0 {
        0
    } else {
        scaled_sum_y(events.drop_last(), sensitivity) + events.last().y * sensitivity
    }
}

/// Folds the frame's mouse events into one drag vector, each event scaled by
/// the global sensitivity. The bounds on a single event, on the event count
/// and on the sensitivity keep the sum within [`DELTA_LIMIT`], which is what
/// [`update`] accepts.
pub fn accumulate_deltas(events: &Vec<Vec2Fix>, sensitivity: i64) -> (r: Vec2Fix)
    requires
        events@.len() <= EVENT_LIMIT,
        forall|i: int| 0 <= i < events@.len() ==> -MOUSE_STEP_LIMIT <= (#[trigger] events@[i]).x
            <= MOUSE_STEP_LIMIT,
        forall|i: int| 0 <= i < events@.len() ==> -MOUSE_STEP_LIMIT <= (#[trigger] events@[i]).y
            <= MOUSE_STEP_LIMIT,
        0 <= sensitivity <= SENS_LIMIT,
    ensures
        r.x == scaled_sum_x(events@, sensitivity as int),
        r.y == scaled_sum_y(events@, sensitivity as int),
        -DELTA_LIMIT <= r.x <= DELTA_LIMIT,
        -DELTA_LIMIT <= r.y <= DELTA_LIMIT,
{
    let mut sum = Vec2Fix { x: 0, y: 0 };
    let mut i: usize = 0;
    while i < events.len()
        invariant
            i <= events@.len(),
            events@.len() <= EVENT_LIMIT,
            forall|k: int|
                0 <= k < events@.len() ==> -MOUSE_STEP_LIMIT <= (#[trigger] events@[k]).x
                    <= MOUSE_STEP_LIMIT,
            forall|k: int|
                0 <= k < events@.len() ==> -MOUSE_STEP_LIMIT <= (#[trigger] events@[k]).y
                    <= MOUSE_STEP_LIMIT,
            0 <= sensitivity <= SENS_LIMIT,
            sum.x == scaled_sum_x(events@.subrange(0, i as int), sensitivity as int),
            sum.y == scaled_sum_y(events@.subrange(0, i as int), sensitivity as int),
            -(i as int) * MOUSE_STEP_LIMIT * SENS_LIMIT <= sum.x <= (i as int) * MOUSE_STEP_LIMIT
                * SENS_LIMIT,
            -(i as int) * MOUSE_STEP_LIMIT * SENS_LIMIT <= sum.y <= (i as int) * MOUSE_STEP_LIMIT
                * SENS_LIMIT,
        decreases events@.len() - i,
    {
        let ghost prefix = events@.subrange(0, i as int);
        let ghost next_prefix = events@.subrange(0, i as int + 1);
        let event = events[i];
        proof {
            assert(next_prefix.drop_last() =~= prefix);
            assert(next_prefix.last() == events@[i as int]);
            assert(-MOUSE_STEP_LIMIT * SENS_LIMIT <= event.x * sensitivity <= MOUSE_STEP_LIMIT
                * SENS_LIMIT) by (nonlinear_arith)
                requires
                    -MOUSE_STEP_LIMIT <= event.x <= MOUSE_STEP_LIMIT,
                    0 <= sensitivity <= SENS_LIMIT,
            ;
            assert(-MOUSE_STEP_LIMIT * SENS_LIMIT <= event.y * sensitivity <= MOUSE_STEP_LIMIT
                * SENS_LIMIT) by (nonlinear_arith)
                requires
                    -MOUSE_STEP_LIMIT <= event.y <= MOUSE_STEP_LIMIT,
                    0 <= sensitivity <= SENS_LIMIT,
            ;
        }
        sum = Vec2Fix { x: sum.x + event.x * sensitivity, y: sum.y + event.y * sensitivity };
        i = i + 1;
    }
    proof {
        assert(events@.subrange(0, events@.len() as int) =~= events@);
    }
    sum
}

/// Per-light bindings: the colour the gizmo draws this sun with, and the key
/// set whose chord activates its mouse control.
#[derive(Debug)]
pub struct SunGizmo {
    /// The colour of this sun's arrow in the gizmo.
    pub color: crate::geometry::Rgba,
    /// Every key in this set must be held at once for the sun to follow the
    /// mouse.
    pub key_bindings: Vec<u32>,
}

impl Default for SunGizmo {
    /// The documented default binding.
    fn default() -> (r: Self)
        ensures
            r.color == (crate::geometry::Rgba { red: 1000, green: 1000, blue: 0, alpha: 1000 }),
            r.key_bindings@ == seq![crate::config::KEY_ALT_LEFT, crate::config::KEY_DIGIT1],
    {
        let mut keys: Vec<u32> = Vec::new();
        keys.push(crate::config::KEY_ALT_LEFT);
        keys.push(crate::config::KEY_DIGIT1);
        proof {
            assert(keys@ =~= seq![crate::config::KEY_ALT_LEFT, crate::config::KEY_DIGIT1]);
        }
        SunGizmo {
            color: crate::geometry::Rgba { red: 1000, green: 1000, blue: 0, alpha: 1000 },
            key_bindings: keys,
        }
    }
}

/// One frame of the controller over every tracked sun.
///
/// Each sun whose whole key set is held receives the same accumulated,
/// sensitivity-scaled drag as one clamped step; every other sun is left
/// exactly as it was. The returned flag reports whether any sun rotated, and
/// is what resets the gizmo's idle countdown.
pub fn update_sun(
    orientations: &mut Vec<SunOrientation>,
    gizmos: &Vec<SunGizmo>,
    held: &Vec<u32>,
    mouse_events: &Vec<Vec2Fix>,
    sensitivity: i64,
    dt: i64,
) -> (rotated: bool)
    requires
        gizmos@.len() == old(orientations)@.len(),
        forall|i: int| 0 <= i < old(orientations)@.len() ==> (#[trigger] old(
            orientations,
        )@[i]).wf(),
        mouse_events@.len() <= EVENT_LIMIT,
        forall|i: int| 0 <= i < mouse_events@.len() ==> -MOUSE_STEP_LIMIT <= (
        #[trigger] mouse_events@[i]).x <= MOUSE_STEP_LIMIT,
        forall|i: int| 0 <= i < mouse_events@.len() ==> -MOUSE_STEP_LIMIT <= (
        #[trigger] mouse_events@[i]).y <= MOUSE_STEP_LIMIT,
        0 <= sensitivity <= SENS_LIMIT,
        0 <= dt <= DT_LIMIT,
    ensures
        final(orientations)@.len() == old(orientations)@.len(),
        forall|i: int|
            0 <= i < old(orientations)@.len() && gesture_active(gizmos@[i].key_bindings@, held@)
                ==> final(orientations)@[i] == stepped(
                old(orientations)@[i],
                (Vec2Fix {
                    x: scaled_sum_x(mouse_events@, sensitivity as int) as i64,
                    y: scaled_sum_y(mouse_events@, sensitivity as int) as i64,
                }),
                dt as int,
            ),
        forall|i: int|
            0 <= i < old(orientations)@.len() && !gesture_active(gizmos@[i].key_bindings@, held@)
                ==> final(orientations)@[i] == old(orientations)@[i],
        rotated == exists|i: int|
            0 <= i < gizmos@.len() && gesture_active(#[trigger] gizmos@[i].key_bindings@, held@),
{
    let delta = accumulate_deltas(mouse_events, sensitivity);
    let mut updated: Vec<SunOrientation> = Vec::new();
    let mut rotated = false;
    let mut i: usize = 0;
    while i < orientations.len()
        invariant
            gizmos@.len() == orientations@.len(),
            i <= orientations@.len(),
            updated@.len() == i,
            forall|k: int| 0 <= k < orientations@.len() ==> (#[trigger] orientations@[k]).wf(),
            delta.x == scaled_sum_x(mouse_events@, sensitivity as int),
            delta.y == scaled_sum_y(mouse_events@, sensitivity as int),
            -DELTA_LIMIT <= delta.x <= DELTA_LIMIT,
            -DELTA_LIMIT <= delta.y <= DELTA_LIMIT,
            0 <= dt <= DT_LIMIT,
            forall|k: int|
                0 <= k < i && gesture_active(gizmos@[k].key_bindings@, held@) ==> updated@[k]
                    == stepped(orientations@[k], delta, dt as int),
            forall|k: int|
                0 <= k < i && !gesture_active(gizmos@[k].key_bindings@, held@) ==> updated@[k]
                    == orientations@[k],
            rotated == exists|k: int|
                0 <= k < i && gesture_active(#[trigger] gizmos@[k].key_bindings@, held@),
        decreases orientations@.len() - i,
    {
        let active = gesture_is_active(&gizmos[i].key_bindings, held);
        let (next, did) = update(orientations[i], active, delta, dt);
        updated.push(next);
        if did {
            rotated = true;
        }
        i = i + 1;
    }
    *orientations = updated;
    rotated
}

} // verus!
