//! A screen-anchored gizmo for steering directional lights ("suns") with the
//! mouse.
//!
//! The crate holds the frame-by-frame logic of the gizmo: deciding which
//! lights a held key gesture addresses, turning accumulated mouse motion into
//! a clamped vertical and a free horizontal rotation step, keeping the idle
//! countdown that hides the gizmo after a quiet spell, projecting the fixed
//! screen anchor to a world-space point, and emitting the arcs, arrows and
//! projection lines that visualise every tracked light.
//!
//! All quantities are fixed-point integers: fractions, seconds and world
//! coordinates in thousandths ([`geometry::MILLI`]), emitted points in
//! millionths ([`geometry::MICRO`]), and angles in billionths of a radian
//! ([`controller::NANO`]). The host is expected to quantise its floating-point
//! snapshot (key set, mouse deltas, camera ray, frame time) into these units
//! once per frame and to rasterise the primitives the library hands back.

pub mod anchor;
pub mod config;
pub mod controller;
pub mod draw;
pub mod geometry;
pub mod gesture;
pub mod timer;
