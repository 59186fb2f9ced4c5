//! The idle countdown that keeps the gizmo on screen for a while after the
//! last interaction and hides it afterwards.

use vstd::prelude::*;

verus! {

/// Largest countdown or frame time accepted, in thousandths of a second.
pub const TIME_LIMIT: i64 = 1000000000000;

/// The gizmo's visibility state: either on screen with some time remaining
/// before it fades, or hidden.
#[derive(Clone, Copy, PartialEq, Eq, Structural, Debug)]
pub enum GizmoVisibility {
    /// The gizmo is drawn; `remaining` thousandths of a second are left
    /// before it disappears.
    Visible { remaining: i64 },
    /// The gizmo is not drawn. This is also the initial state, before the
    /// first interaction.
    Hidden,
}

impl GizmoVisibility {
    /// A countdown never holds a negative or overflow-prone remainder.
    pub open spec fn wf(self) -> bool {
        match self {
            GizmoVisibility::Visible { remaining } => 0 <= remaining <= TIME_LIMIT,
            GizmoVisibility::Hidden => true,
        }
    }

    /// Whether the gizmo is drawn in this state.
    pub open spec fn draws(self) -> bool {
        self is Visible
    }
}

/// The state before the first interaction: hidden, so the gizmo only ever
/// appears once a light has actually been rotated.
pub fn initial_visibility() -> (r: GizmoVisibility)
    ensures
        r == GizmoVisibility::Hidden,
{
    GizmoVisibility::Hidden
}

/// One frame of the visibility state machine. An activation event restarts
/// the countdown from the full persist duration, whatever the state was;
/// otherwise a visible countdown loses the frame time, and crosses into
/// hiding the moment it would go negative.
pub open spec fn timer_step(
    state: GizmoVisibility,
    event: bool,
    dt: int,
    persist: int,
) -> GizmoVisibility {
    if event {
        GizmoVisibility::Visible { remaining: persist as i64 }
    } else {
        match state {
            GizmoVisibility::Visible { remaining } => if remaining - dt >= 0 {
                GizmoVisibility::Visible { remaining: (remaining - dt) as i64 }
            } else {
                GizmoVisibility::Hidden
            },
            GizmoVisibility::Hidden => GizmoVisibility::Hidden,
        }
    }
}

/// Advances the visibility state by one frame.
///
/// The last three clauses restate the step for each shape of input: an
/// activation event resets the countdown to exactly the persist duration
/// regardless of the prior state; absent one, the countdown decays by
/// exactly `dt` until it would cross zero, after which the gizmo stops
/// drawing and stays hidden.
pub fn step_visibility(state: GizmoVisibility, event: bool, dt: i64, persist: i64) -> (r:
    GizmoVisibility)
    requires
        state.wf(),
        0 <= dt <= TIME_LIMIT,
        0 <= persist <= TIME_LIMIT,
    ensures
        r == timer_step(state, event, dt as int, persist as int),
        r.wf(),
        event ==> r == (GizmoVisibility::Visible { remaining: persist }),
        state matches GizmoVisibility::Visible { remaining } ==> (!event ==> r == (if remaining
            - dt >= 0 {
            GizmoVisibility::Visible { remaining: (remaining - dt) as i64 }
        } else {
            GizmoVisibility::Hidden
        })),
        !event && state is Hidden ==> r is Hidden,
{
    if event {
        return GizmoVisibility::Visible { remaining: persist };
    }
    match state {
        GizmoVisibility::Visible { remaining } => {
            if remaining >= dt {
                GizmoVisibility::Visible { remaining: remaining - dt }
            } else {
                GizmoVisibility::Hidden
            }
        },
        GizmoVisibility::Hidden => GizmoVisibility::Hidden,
    }
}

} // verus!
