use sun_gizmo::anchor::GizmoRay;
use sun_gizmo::anchor::compute_anchor;
use sun_gizmo::anchor::depth_for_size;
use sun_gizmo::anchor::viewport_anchor;
use sun_gizmo::config::KEY_ALT_LEFT;
use sun_gizmo::config::KEY_DIGIT1;
use sun_gizmo::config::SunGizmoPlugin;
use sun_gizmo::controller::SunGizmo;
use sun_gizmo::controller::SunOrientation;
use sun_gizmo::controller::accumulate_deltas;
use sun_gizmo::controller::update;
use sun_gizmo::controller::update_sun;
use sun_gizmo::draw::ArcKind;
use sun_gizmo::draw::GizmoPlane;
use sun_gizmo::draw::GizmoPrimitive;
use sun_gizmo::draw::LightView;
use sun_gizmo::draw::draw_primitives;
use sun_gizmo::draw::draw_sun_gizmo;
use sun_gizmo::geometry::Rgba;
use sun_gizmo::geometry::Vec2Fix;
use sun_gizmo::geometry::Vec3Fix;
use sun_gizmo::gesture::gesture_is_active;
use sun_gizmo::timer::GizmoVisibility;
use sun_gizmo::timer::initial_visibility;
use sun_gizmo::timer::step_visibility;

#[test]
fn gesture_empty_bindings_never_active() {
    let bindings: Vec<u32> = vec![];
    let held: Vec<u32> = vec![1, 2, 3];
    assert!(!gesture_is_active(&bindings, &held));
}

#[test]
fn gesture_active_when_all_keys_held() {
    let bindings: Vec<u32> = vec![KEY_ALT_LEFT, KEY_DIGIT1];
    let held: Vec<u32> = vec![7, KEY_DIGIT1, KEY_ALT_LEFT];
    assert!(gesture_is_active(&bindings, &held));
}

#[test]
fn gesture_inactive_when_one_key_missing() {
    let bindings: Vec<u32> = vec![KEY_ALT_LEFT, KEY_DIGIT1];
    let held: Vec<u32> = vec![KEY_ALT_LEFT];
    assert!(!gesture_is_active(&bindings, &held));
}

#[test]
fn update_without_gesture_is_identity() {
    let o = SunOrientation { tilt: 123456789, yaw: -987654321 };
    let (n, rotated) = update(o, false, Vec2Fix { x: 500000, y: -500000 }, 16);
    assert!(!rotated);
    assert_eq!(n, o);
}

#[test]
fn update_applies_vertical_and_horizontal_steps() {
    // Tilt one radian; drag up (negative y) rotates toward the pole,
    // drag right adds yaw: both scaled by the frame time.
    let o = SunOrientation { tilt: 1_000_000_000, yaw: 0 };
    let (n, rotated) = update(o, true, Vec2Fix { x: 2000, y: -3000 }, 16);
    assert!(rotated);
    assert_eq!(n, SunOrientation { tilt: 999_952_000, yaw: 32_000 });
}

#[test]
fn update_at_pole_clamps_upward_drag_to_zero() {
    // Forward already equals world up: an upward drag asks for more
    // rotation toward the pole and is clamped to exactly zero.
    let o = SunOrientation { tilt: 0, yaw: 0 };
    let (n, rotated) = update(o, true, Vec2Fix { x: 0, y: -1_000_000 }, 16);
    assert!(rotated);
    assert_eq!(n.tilt, 0);
}

#[test]
fn update_never_overshoots_the_pole() {
    // A huge upward drag is cut to the remaining tilt: the new tilt is
    // exactly zero, never negative.
    let o = SunOrientation { tilt: 5000, yaw: 0 };
    let (n, _) = update(o, true, Vec2Fix { x: 0, y: -10_000_000_000_000 }, 100);
    assert_eq!(n.tilt, 0);
}

#[test]
fn update_away_from_pole_is_unclamped() {
    // A downward drag moves the forward vector away from the pole and is
    // never clamped.
    let o = SunOrientation { tilt: 0, yaw: 0 };
    let (n, _) = update(o, true, Vec2Fix { x: 0, y: 3000 }, 16);
    assert_eq!(n.tilt, 48_000);
}

#[test]
fn accumulate_scales_each_event() {
    let events = vec![Vec2Fix { x: 10, y: -4 }, Vec2Fix { x: -3, y: 6 }];
    let d = accumulate_deltas(&events, 500);
    assert_eq!(d, Vec2Fix { x: 3500, y: 1000 });
}

#[test]
fn timer_decays_by_exactly_dt() {
    let v = step_visibility(GizmoVisibility::Visible { remaining: 5000 }, false, 16, 5000);
    assert_eq!(v, GizmoVisibility::Visible { remaining: 4984 });
}

#[test]
fn timer_hides_when_crossing_zero() {
    let v = step_visibility(GizmoVisibility::Visible { remaining: 10 }, false, 16, 5000);
    assert_eq!(v, GizmoVisibility::Hidden);
}

#[test]
fn timer_resets_to_full_persist_on_event() {
    let v = step_visibility(GizmoVisibility::Visible { remaining: 3 }, true, 16, 5000);
    assert_eq!(v, GizmoVisibility::Visible { remaining: 5000 });
    let w = step_visibility(GizmoVisibility::Hidden, true, 16, 7500);
    assert_eq!(w, GizmoVisibility::Visible { remaining: 7500 });
}

#[test]
fn gizmo_starts_hidden() {
    assert_eq!(initial_visibility(), GizmoVisibility::Hidden);
}

#[test]
fn timer_hidden_stays_hidden_without_event() {
    let v = step_visibility(GizmoVisibility::Hidden, false, 16, 5000);
    assert_eq!(v, GizmoVisibility::Hidden);
}

#[test]
fn viewport_anchor_is_fraction_of_viewport() {
    // An 800 by 600 pixel viewport with the anchor at its centre.
    let size = Vec2Fix { x: 800_000, y: 600_000 };
    let frac = Vec2Fix { x: 500, y: 500 };
    let p = viewport_anchor(size, frac);
    assert_eq!(p, Vec2Fix { x: 400_000_000, y: 300_000_000 });
}

#[test]
fn anchor_lies_one_unit_in_front_of_camera() {
    // Camera at the origin looking down negative z, radial size one:
    // the anchor sits exactly one unit along the view direction.
    let ray = GizmoRay {
        origin: Vec3Fix { x: 0, y: 0, z: 0 },
        direction: Vec3Fix { x: 0, y: 0, z: -1000 },
    };
    let a = compute_anchor(Some(ray), 1000);
    assert_eq!(a, Some(Vec3Fix { x: 0, y: 0, z: -1_000_000 }));
}

#[test]
fn anchor_absent_without_ray() {
    assert_eq!(compute_anchor(None, 1000), None);
}

#[test]
fn larger_radial_size_draws_closer() {
    assert_eq!(depth_for_size(500), 2000);
    assert_eq!(depth_for_size(1000), 1000);
    assert!(depth_for_size(1000) < depth_for_size(500));
}

#[test]
fn figure_holds_reference_and_four_primitives_per_light() {
    let anchor = Vec3Fix { x: 0, y: 0, z: 0 };
    let yellow = Rgba { red: 1000, green: 1000, blue: 0, alpha: 1000 };
    let lights = vec![
        LightView { forward: Vec3Fix { x: 0, y: -1000, z: 0 }, color: yellow },
        LightView { forward: Vec3Fix { x: 1000, y: 0, z: 0 }, color: yellow },
    ];
    let figure = draw_primitives(anchor, &lights);
    assert_eq!(figure.len(), 9 + 4 * 2);
    let y_color = Rgba { red: 400, green: 1000, blue: 400, alpha: 1000 };
    assert_eq!(
        figure[0],
        GizmoPrimitive::Arc {
            kind: ArcKind::Full,
            radius: 1_000_000,
            center: anchor,
            plane: GizmoPlane::Horizontal,
            color: y_color,
        }
    );
    assert_eq!(
        figure[3],
        GizmoPrimitive::Arc {
            kind: ArcKind::Full,
            radius: 400_000,
            center: anchor,
            plane: GizmoPlane::Horizontal,
            color: Rgba { alpha: 100, ..y_color },
        }
    );
    match figure[4] {
        GizmoPrimitive::Arc { kind, plane, .. } => {
            assert_eq!(kind, ArcKind::Half);
            assert_eq!(plane, GizmoPlane::VerticalX);
        }
        _ => panic!("expected a half arc"),
    }
}

#[test]
fn light_arrow_points_back_toward_anchor() {
    // A light shining straight down: its arrow hangs above the anchor,
    // from 1.2 units up to 0.2 units up.
    let anchor = Vec3Fix { x: 0, y: 0, z: 0 };
    let yellow = Rgba { red: 1000, green: 1000, blue: 0, alpha: 1000 };
    let lights = vec![LightView { forward: Vec3Fix { x: 0, y: -1000, z: 0 }, color: yellow }];
    let figure = draw_primitives(anchor, &lights);
    assert_eq!(
        figure[9],
        GizmoPrimitive::Arrow {
            start: Vec3Fix { x: 0, y: 1_200_000, z: 0 },
            end: Vec3Fix { x: 0, y: 200_000, z: 0 },
            color: yellow,
        }
    );
    // Its tail projects straight down onto the anchor itself.
    let y_color = Rgba { red: 400, green: 1000, blue: 400, alpha: 1000 };
    assert_eq!(
        figure[10],
        GizmoPrimitive::Line {
            start: Vec3Fix { x: 0, y: 1_200_000, z: 0 },
            end: Vec3Fix { x: 0, y: 0, z: 0 },
            color: y_color,
        }
    );
}

#[test]
fn two_lights_disjoint_gestures_exactly_one_rotates() {
    let red = Rgba { red: 1000, green: 0, blue: 0, alpha: 1000 };
    let blue = Rgba { red: 0, green: 0, blue: 1000, alpha: 1000 };
    let mut orientations = vec![
        SunOrientation { tilt: 1_000_000_000, yaw: 0 },
        SunOrientation { tilt: 2_000_000_000, yaw: 0 },
    ];
    let gizmos = vec![
        SunGizmo { color: red, key_bindings: vec![10, 11] },
        SunGizmo { color: blue, key_bindings: vec![20, 21] },
    ];
    let held = vec![10, 11];
    let events = vec![Vec2Fix { x: 0, y: -2000 }];
    let rotated = update_sun(&mut orientations, &gizmos, &held, &events, 1000, 16);
    assert!(rotated);
    // The gestured light took one clamped step; the other is untouched.
    assert_eq!(orientations[0], SunOrientation { tilt: 968_000_000, yaw: 0 });
    assert_eq!(orientations[1], SunOrientation { tilt: 2_000_000_000, yaw: 0 });
    // Both lights remain visualised: the figure still carries an arrow
    // in each light's colour.
    let lights = vec![
        LightView { forward: Vec3Fix { x: 0, y: -1000, z: 0 }, color: red },
        LightView { forward: Vec3Fix { x: 0, y: -1000, z: 0 }, color: blue },
    ];
    let figure = draw_primitives(Vec3Fix { x: 0, y: 0, z: 0 }, &lights);
    assert_eq!(figure.len(), 9 + 4 * 2);
    let arrow_colors: Vec<Rgba> = figure
        .iter()
        .skip(9)
        .filter_map(|p| match p {
            GizmoPrimitive::Arrow { color, .. } => Some(*color),
            _ => None,
        })
        .collect();
    assert_eq!(arrow_colors, vec![red, blue]);
}

#[test]
fn no_gesture_held_rotates_nothing() {
    let red = Rgba { red: 1000, green: 0, blue: 0, alpha: 1000 };
    let mut orientations = vec![SunOrientation { tilt: 1_000_000_000, yaw: 77 }];
    let gizmos = vec![SunGizmo { color: red, key_bindings: vec![10, 11] }];
    let held = vec![10];
    let events = vec![Vec2Fix { x: 5000, y: 5000 }];
    let rotated = update_sun(&mut orientations, &gizmos, &held, &events, 1000, 16);
    assert!(!rotated);
    assert_eq!(orientations[0], SunOrientation { tilt: 1_000_000_000, yaw: 77 });
}

#[test]
fn frame_draws_full_figure_after_event() {
    let ray = GizmoRay {
        origin: Vec3Fix { x: 0, y: 0, z: 0 },
        direction: Vec3Fix { x: 0, y: 0, z: -1000 },
    };
    let yellow = Rgba { red: 1000, green: 1000, blue: 0, alpha: 1000 };
    let lights = vec![LightView { forward: Vec3Fix { x: 0, y: -1000, z: 0 }, color: yellow }];
    let (vis, figure) =
        draw_sun_gizmo(GizmoVisibility::Hidden, true, 16, 5000, Some(ray), 1000, &lights);
    assert_eq!(vis, GizmoVisibility::Visible { remaining: 5000 });
    assert_eq!(figure.len(), 9 + 4);
}

#[test]
fn frame_draws_nothing_while_hidden() {
    let ray = GizmoRay {
        origin: Vec3Fix { x: 0, y: 0, z: 0 },
        direction: Vec3Fix { x: 0, y: 0, z: -1000 },
    };
    let (vis, figure) =
        draw_sun_gizmo(GizmoVisibility::Hidden, false, 16, 5000, Some(ray), 1000, &vec![]);
    assert_eq!(vis, GizmoVisibility::Hidden);
    assert!(figure.is_empty());
}

#[test]
fn frame_draws_nothing_without_ray() {
    let (vis, figure) = draw_sun_gizmo(
        GizmoVisibility::Visible { remaining: 5000 },
        false,
        16,
        5000,
        None,
        1000,
        &vec![],
    );
    assert_eq!(vis, GizmoVisibility::Visible { remaining: 4984 });
    assert!(figure.is_empty());
}

#[test]
fn plugin_defaults_match_documentation() {
    let p = SunGizmoPlugin::default();
    assert_eq!(p.position, Vec2Fix { x: 700, y: 700 });
    assert_eq!(p.size, 100);
    assert_eq!(p.persist_time, 5000);
    assert_eq!(p.sensitivity, 500);
    assert_eq!(p.line_width, 4000);
}

#[test]
fn sun_gizmo_default_binding() {
    let g = SunGizmo::default();
    assert_eq!(g.color, Rgba { red: 1000, green: 1000, blue: 0, alpha: 1000 });
    assert_eq!(g.key_bindings, vec![KEY_ALT_LEFT, KEY_DIGIT1]);
}
