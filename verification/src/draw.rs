//! Emission of the gizmo's world-space primitives: the reference circles,
//! half arcs and axis arrows around the anchor, and one arrow with three
//! projection lines for every tracked light.

use vstd::prelude::*;
use crate::anchor::ANCHOR_LIMIT;
use crate::anchor::DIRECTION_LIMIT;
use crate::anchor::GizmoRay;
use crate::anchor::anchor_point;
use crate::anchor::compute_anchor;
use crate::geometry::MICRO;
use crate::geometry::Rgba;
use crate::geometry::Vec3Fix;
use crate::timer::GizmoVisibility;
use crate::timer::TIME_LIMIT;
use crate::timer::step_visibility;
use crate::timer::timer_step;

verus! {

/// How much of a full turn an arc covers.
#[derive(Clone, Copy, PartialEq, Eq, Structural, Debug)]
pub enum ArcKind {
    /// A full circle.
    Full,
    /// A half circle.
    Half,
}

/// The reference plane an arc lies in, as an orientation the host turns into
/// its own rotation type.
#[derive(Clone, Copy, PartialEq, Eq, Structural, Debug)]
pub enum GizmoPlane {
    /// The horizontal plane, normal to world up.
    Horizontal,
    /// The vertical plane whose normal is the world x axis.
    VerticalX,
    /// The vertical plane whose normal is the world z axis.
    VerticalZ,
}

/// One immediate-mode drawing call the host performs for the gizmo. All
/// points and radii are in millionths of a world unit.
#[derive(Clone, Copy, PartialEq, Eq, Structural, Debug)]
pub enum GizmoPrimitive {
    /// An arc around `center` in the given reference plane.
    Arc { kind: ArcKind, radius: i64, center: Vec3Fix, plane: GizmoPlane, color: Rgba },
    /// An arrow from `start` to `end`.
    Arrow { start: Vec3Fix, end: Vec3Fix, color: Rgba },
    /// A plain line from `start` to `end`.
    Line { start: Vec3Fix, end: Vec3Fix, color: Rgba },
}

/// What the projector reads of one tracked light: the direction its forward
/// vector points in (thousandths of a unit) and the colour it is bound to.
#[derive(Clone, Copy, PartialEq, Eq, Structural, Debug)]
pub struct LightView {
    /// The light's forward vector, in thousandths of a world unit.
    pub forward: Vec3Fix,
    /// The colour of this light's arrow.
    pub color: Rgba,
}

impl LightView {
    /// A forward vector stays within the direction bounds; a unit vector
    /// needs no more than one thousand per coordinate.
    pub open spec fn wf(self) -> bool {
        &&& -DIRECTION_LIMIT <= self.forward.x <= DIRECTION_LIMIT
        &&& -DIRECTION_LIMIT <= self.forward.y <= DIRECTION_LIMIT
        &&& -DIRECTION_LIMIT <= self.forward.z <= DIRECTION_LIMIT
    }
}

/// The colour of the world x axis and of the plane it is normal to.
pub open spec fn x_axis_color() -> Rgba {
    Rgba { red: 1000, green: 400, blue: 400, alpha: 1000 }
}

/// The colour of the world up axis and of the horizontal plane.
pub open spec fn y_axis_color() -> Rgba {
    Rgba { red: 400, green: 1000, blue: 400, alpha: 1000 }
}

/// The colour of the world z axis and of the plane it is normal to.
pub open spec fn z_axis_color() -> Rgba {
    Rgba { red: 400, green: 400, blue: 1000, alpha: 1000 }
}

/// The executable value of [`x_axis_color`].
pub fn make_x_color() -> (c: Rgba)
    ensures
        c == x_axis_color(),
{
    Rgba { red: 1000, green: 400, blue: 400, alpha: 1000 }
}

/// The executable value of [`y_axis_color`].
pub fn make_y_color() -> (c: Rgba)
    ensures
        c == y_axis_color(),
{
    Rgba { red: 400, green: 1000, blue: 400, alpha: 1000 }
}

/// The executable value of [`z_axis_color`].
pub fn make_z_color() -> (c: Rgba)
    ensures
        c == z_axis_color(),
{
    Rgba { red: 400, green: 400, blue: 1000, alpha: 1000 }
}

/// `a` moved by the given offsets, in millionths of a unit.
pub open spec fn moved(a: Vec3Fix, dx: int, dy: int, dz: int) -> Vec3Fix {
    Vec3Fix { x: (a.x + dx) as i64, y: (a.y + dy) as i64, z: (a.z + dz) as i64 }
}

/// The static reference figure around the anchor: four fading concentric
/// horizontal circles, a half circle in each vertical reference plane, and a
/// unit arrow along each world axis.
pub open spec fn reference_primitives(anchor: Vec3Fix) -> Seq<GizmoPrimitive> {
    seq![
        GizmoPrimitive::Arc {
            kind: ArcKind::Full,
            radius: MICRO,
            center: anchor,
            plane: GizmoPlane::Horizontal,
            color: y_axis_color(),
        },
        GizmoPrimitive::Arc {
            kind: ArcKind::Full,
            radius: 800000,
            center: anchor,
            plane: GizmoPlane::Horizontal,
            color: Rgba { alpha: 400, ..y_axis_color() },
        },
        GizmoPrimitive::Arc {
            kind: ArcKind::Full,
            radius: 600000,
            center: anchor,
            plane: GizmoPlane::Horizontal,
            color: Rgba { alpha: 250, ..y_axis_color() },
        },
        GizmoPrimitive::Arc {
            kind: ArcKind::Full,
            radius: 400000,
            center: anchor,
            plane: GizmoPlane::Horizontal,
            color: Rgba { alpha: 100, ..y_axis_color() },
        },
        GizmoPrimitive::Arc {
            kind: ArcKind::Half,
            radius: MICRO,
            center: anchor,
            plane: GizmoPlane::VerticalX,
            color: x_axis_color(),
        },
        GizmoPrimitive::Arc {
            kind: ArcKind::Half,
            radius: MICRO,
            center: anchor,
            plane: GizmoPlane::VerticalZ,
            color: z_axis_color(),
        },
        GizmoPrimitive::Arrow {
            start: anchor,
            end: moved(anchor, MICRO as int, 0, 0),
            color: x_axis_color(),
        },
        GizmoPrimitive::Arrow {
            start: anchor,
            end: moved(anchor, 0, MICRO as int, 0),
            color: y_axis_color(),
        },
        GizmoPrimitive::Arrow {
            start: anchor,
            end: moved(anchor, 0, 0, MICRO as int),
            color: z_axis_color(),
        },
    ]
}

/// One light's share of the figure: an arrow pointing back along the light's
/// travel toward the anchor, and three lines joining the arrow's tail to its
/// projections onto the reference planes, each in the colour of the plane it
/// lands on.
pub open spec fn light_primitives(anchor: Vec3Fix, light: LightView) -> Seq<GizmoPrimitive> {
    let f = light.forward;
    let tail = moved(anchor, -f.x * 1200, -f.y * 1200, -f.z * 1200);
    let tip = moved(anchor, -f.x * 200, -f.y * 200, -f.z * 200);
    let floor_point = Vec3Fix { x: tail.x, y: anchor.y, z: tail.z };
    let x_axis_point = Vec3Fix { x: tail.x, y: anchor.y, z: anchor.z };
    let z_axis_point = Vec3Fix { x: anchor.x, y: anchor.y, z: tail.z };
    seq![
        GizmoPrimitive::Arrow { start: tail, end: tip, color: light.color },
        GizmoPrimitive::Line { start: tail, end: floor_point, color: y_axis_color() },
        GizmoPrimitive::Line { start: floor_point, end: x_axis_point, color: z_axis_color() },
        GizmoPrimitive::Line { start: floor_point, end: z_axis_point, color: x_axis_color() },
    ]
}

/// The whole figure: the reference primitives followed by four primitives
/// per tracked light, in the order the lights are given.
pub open spec fn gizmo_primitives(anchor: Vec3Fix, lights: Seq<LightView>) -> Seq<GizmoPrimitive>
    decreases lights.len(),
{
    if lights.len() == 0 {
        reference_primitives(anchor)
    } else {
        gizmo_primitives(anchor, lights.drop_last()) + light_primitives(anchor, lights.last())
    }
}

/// Emits the gizmo's figure around `anchor` for the given lights, in exactly
/// the order and with exactly the coordinates of [`gizmo_primitives`].
pub fn draw_primitives(anchor: Vec3Fix, lights: &Vec<LightView>) -> (r: Vec<GizmoPrimitive>)
    requires
        -ANCHOR_LIMIT <= anchor.x <= ANCHOR_LIMIT,
        -ANCHOR_LIMIT <= anchor.y <= ANCHOR_LIMIT,
        -ANCHOR_LIMIT <= anchor.z <= ANCHOR_LIMIT,
        forall|i: int| 0 <= i < lights@.len() ==> (#[trigger] lights@[i]).wf(),
    ensures
        r@ == gizmo_primitives(anchor, lights@),
{
    let mut out: Vec<GizmoPrimitive> = Vec::new();
    let y_color = make_y_color();
    let x_color = make_x_color();
    let z_color = make_z_color();
    out.push(
        GizmoPrimitive::Arc {
            kind: ArcKind::Full,
            radius: MICRO,
            center: anchor,
            plane: GizmoPlane::Horizontal,
            color: y_color,
        },
    );
    out.push(
        GizmoPrimitive::Arc {
            kind: ArcKind::Full,
            radius: 800000,
            center: anchor,
            plane: GizmoPlane::Horizontal,
            color: y_color.with_alpha(400),
        },
    );
    out.push(
        GizmoPrimitive::Arc {
            kind: ArcKind::Full,
            radius: 600000,
            center: anchor,
            plane: GizmoPlane::Horizontal,
            color: y_color.with_alpha(250),
        },
    );
    out.push(
        GizmoPrimitive::Arc {
            kind: ArcKind::Full,
            radius: 400000,
            center: anchor,
            plane: GizmoPlane::Horizontal,
            color: y_color.with_alpha(100),
        },
    );
    out.push(
        GizmoPrimitive::Arc {
            kind: ArcKind::Half,
            radius: MICRO,
            center: anchor,
            plane: GizmoPlane::VerticalX,
            color: x_color,
        },
    );
    out.push(
        GizmoPrimitive::Arc {
            kind: ArcKind::Half,
            radius: MICRO,
            center: anchor,
            plane: GizmoPlane::VerticalZ,
            color: z_color,
        },
    );
    out.push(
        GizmoPrimitive::Arrow {
            start: anchor,
            end: Vec3Fix { x: anchor.x + MICRO, y: anchor.y, z: anchor.z },
            color: x_color,
        },
    );
    out.push(
        GizmoPrimitive::Arrow {
            start: anchor,
            end: Vec3Fix { x: anchor.x, y: anchor.y + MICRO, z: anchor.z },
            color: y_color,
        },
    );
    out.push(
        GizmoPrimitive::Arrow {
            start: anchor,
            end: Vec3Fix { x: anchor.x, y: anchor.y, z: anchor.z + MICRO },
            color: z_color,
        },
    );
    proof {
        assert(out@ =~= reference_primitives(anchor));
        assert(lights@.subrange(0, 0) =~= Seq::<LightView>::empty());
    }
    let mut i: usize = 0;
    while i < lights.len()
        invariant
            i <= lights@.len(),
            -ANCHOR_LIMIT <= anchor.x <= ANCHOR_LIMIT,
            -ANCHOR_LIMIT <= anchor.y <= ANCHOR_LIMIT,
            -ANCHOR_LIMIT <= anchor.z <= ANCHOR_LIMIT,
            forall|k: int| 0 <= k < lights@.len() ==> (#[trigger] lights@[k]).wf(),
            out@ == gizmo_primitives(anchor, lights@.subrange(0, i as int)),
        decreases lights@.len() - i,
    {
        let ghost prefix = lights@.subrange(0, i as int);
        let ghost next_prefix = lights@.subrange(0, i as int + 1);
        let y_color = make_y_color();
        let x_color = make_x_color();
        let z_color = make_z_color();
        let light = lights[i];
        let f = light.forward;
        let tail = Vec3Fix {
            x: anchor.x - f.x * 1200,
            y: anchor.y - f.y * 1200,
            z: anchor.z - f.z * 1200,
        };
        let tip = Vec3Fix {
            x: anchor.x - f.x * 200,
            y: anchor.y - f.y * 200,
            z: anchor.z - f.z * 200,
        };
        let floor_point = Vec3Fix { x: tail.x, y: anchor.y, z: tail.z };
        let x_axis_point = Vec3Fix { x: tail.x, y: anchor.y, z: anchor.z };
        let z_axis_point = Vec3Fix { x: anchor.x, y: anchor.y, z: tail.z };
        out.push(GizmoPrimitive::Arrow { start: tail, end: tip, color: light.color });
        out.push(GizmoPrimitive::Line { start: tail, end: floor_point, color: y_color });
        out.push(GizmoPrimitive::Line { start: floor_point, end: x_axis_point, color: z_color });
        out.push(GizmoPrimitive::Line { start: floor_point, end: z_axis_point, color: x_color });
        proof {
            assert(next_prefix.drop_last() =~= prefix);
            assert(next_prefix.last() == lights@[i as int]);
            assert(out@ =~= gizmo_primitives(anchor, prefix) + light_primitives(
                anchor,
                lights@[i as int],
            ));
        }
        i = i + 1;
    }
    proof {
        assert(lights@.subrange(0, lights@.len() as int) =~= lights@);
    }
    out
}

/// One frame of the gizmo projector.
///
/// The idle countdown advances first: a rotation this frame restarts it at
/// the full persist duration, a quiet frame drains it by `dt`. While the
/// resulting state is hidden, or while the host's camera produced no ray for
/// the anchor pixel, nothing is drawn. Otherwise the anchor is projected
/// `1 / radial_size` units along the ray and the whole figure is emitted
/// around it for every tracked light.
pub fn draw_sun_gizmo(
    visibility: GizmoVisibility,
    sun_updated: bool,
    dt: i64,
    persist_time: i64,
    ray: Option<GizmoRay>,
    radial_size: i64,
    lights: &Vec<LightView>,
) -> (r: (GizmoVisibility, Vec<GizmoPrimitive>))
    requires
        visibility.wf(),
        0 <= dt <= TIME_LIMIT,
        0 <= persist_time <= TIME_LIMIT,
        ray matches Some(ray0) ==> ray0.wf(),
        0 < radial_size,
        forall|i: int| 0 <= i < lights@.len() ==> (#[trigger] lights@[i]).wf(),
    ensures
        r.0 == timer_step(visibility, sun_updated, dt as int, persist_time as int),
        !r.0.draws() ==> r.1@.len() == 0,
        ray is None ==> r.1@.len() == 0,
        ray matches Some(ray0) ==> (r.0.draws() ==> r.1@ == gizmo_primitives(
            anchor_point(ray0, radial_size as int),
            lights@,
        )),
{
    let next_visibility = step_visibility(visibility, sun_updated, dt, persist_time);
    let hidden = match next_visibility {
        GizmoVisibility::Hidden => true,
        GizmoVisibility::Visible { .. } => false,
    };
    if hidden {
        return (next_visibility, Vec::new());
    }
    match compute_anchor(ray, radial_size) {
        None => (next_visibility, Vec::new()),
        Some(anchor) => {
            let figure = draw_primitives(anchor, lights);
            (next_visibility, figure)
        },
    }
}

} // verus!
