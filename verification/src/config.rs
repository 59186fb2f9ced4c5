//! Process-wide configuration of the gizmo, fixed once at startup.

use vstd::prelude::*;
use crate::geometry::MILLI;
use crate::geometry::Vec2Fix;

verus! {

/// The host's identifier for the left Alt key, used in the default gesture.
pub const KEY_ALT_LEFT: u32 = 18;

/// The host's identifier for the 1 key, used in the default gesture.
pub const KEY_DIGIT1: u32 = 49;

/// The gizmo's global configuration: where on screen it sits, how large it
/// appears, how long it lingers after the last interaction, how strongly the
/// mouse steers, and how wide its lines are drawn. All fields are
/// fixed-point, in thousandths.
#[derive(Clone, Copy, PartialEq, Eq, Structural, Debug)]
pub struct SunGizmoPlugin {
    /// Anchor position in screen space, each coordinate a fraction of the
    /// viewport in thousandths: zero is the top or left edge, one thousand
    /// the bottom or right edge.
    pub position: Vec2Fix,
    /// On-screen radial size in thousandths; the anchor is drawn its
    /// reciprocal in world units from the camera.
    pub size: i64,
    /// How long the gizmo persists after an interaction, in thousandths of
    /// a second.
    pub persist_time: i64,
    /// Mouse sensitivity in thousandths.
    pub sensitivity: i64,
    /// Line width of the drawn figure, in thousandths of a pixel.
    pub line_width: i64,
}

impl SunGizmoPlugin {
    /// A configuration is sound when the anchor fraction lies on the
    /// viewport and the size, persist time and sensitivity are usable.
    pub open spec fn wf(self) -> bool {
        &&& 0 <= self.position.x <= MILLI
        &&& 0 <= self.position.y <= MILLI
        &&& 0 < self.size
        &&& 0 <= self.persist_time
        &&& 0 <= self.sensitivity
        &&& 0 < self.line_width
    }
}

/// The default configuration: anchored at seven tenths of each viewport
/// edge, a tenth of a unit large, five seconds of persistence, half
/// sensitivity, four pixels of line width.
pub open spec fn default_plugin() -> SunGizmoPlugin {
    SunGizmoPlugin {
        position: Vec2Fix { x: 700, y: 700 },
        size: 100,
        persist_time: 5000,
        sensitivity: 500,
        line_width: 4000,
    }
}

impl Default for SunGizmoPlugin {
    /// The documented startup defaults.
    fn default() -> (r: Self)
        ensures
            r == default_plugin(),
            r.wf(),
    {
        SunGizmoPlugin {
            position: Vec2Fix { x: 700, y: 700 },
            size: 100,
            persist_time: 5000,
            sensitivity: 500,
            line_width: 4000,
        }
    }
}

/// Marker for the camera whose view the gizmo is projected through; the host
/// consults at most one camera carrying it per frame.
#[derive(Clone, Copy, PartialEq, Eq, Structural, Debug)]
pub struct SunGizmoCamera;

} // verus!
