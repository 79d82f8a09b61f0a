use vstd::prelude::*;
use crate::geometry::{distance, distance_spec};
use crate::input::UpdateState;
use crate::io_scheduler::{IOScheduler, TouchPoint};
use crate::render_state::RenderState;
use std::time::Duration;

verus! {

/// Where a pinch gesture stands between frames.
#[derive(Clone, Copy, Debug, PartialEq, Eq, Structural)]
pub enum PinchPhase {
    /// No pinch in progress.
    Idle,
    /// Two touches, `first` and `second`, were `last_distance` apart on the
    /// previous frame.
    Tracking { first: u64, second: u64, last_distance: u64 },
}

/// The two touches of a pinch, when the snapshot is one: exactly two points
/// with distinct identities. Anything else is no pinch.
pub open spec fn pinch_pair(points: Seq<TouchPoint>) -> Option<(TouchPoint, TouchPoint)> {
    if points.len() == 2 && points[0].id != points[1].id {
        Some((points[0], points[1]))
    } else {
        None
    }
}

/// `a` and `b` are the touches `first` and `second`, in either order.
pub open spec fn same_touches(first: u64, second: u64, a: TouchPoint, b: TouchPoint) -> bool {
    (first == a.id && second == b.id) || (first == b.id && second == a.id)
}

/// One frame of the pinch gesture: the next phase and the next render state.
///
/// With no pinch in the snapshot the gesture ends and the state is kept.
/// With one, its distance is remembered; when the same two touches were
/// tracked at a positive distance `d0`, the scale is multiplied by `d1 / d0`
/// (rounded down in the fixed-point unit) and clamped.
pub open spec fn pinch_step(phase: PinchPhase, st: RenderState, points: Seq<TouchPoint>) -> (
    PinchPhase,
    RenderState,
) {
    match pinch_pair(points) {
        None => (PinchPhase::Idle, st),
        Some((a, b)) => {
            let d1 = distance_spec(a, b);
            let next = PinchPhase::Tracking { first: a.id, second: b.id, last_distance: d1 as u64 };
            match phase {
                PinchPhase::Tracking { first, second, last_distance } => {
                    if same_touches(first, second, a, b) && last_distance > 0 {
                        (next, st.with_clamped_scale(st.scale * d1 / (last_distance as int)))
                    } else {
                        (next, st)
                    }
                },
                PinchPhase::Idle => (next, st),
            }
        },
    }
}

/// Turns a two-touch pinch into a multiplicative change of the scale.
#[derive(Clone, Copy, Debug)]
pub struct PinchHandler {
    pub phase: PinchPhase,
}

impl PinchHandler {
    /// A handler with no pinch in progress.
    pub fn new() -> (r: PinchHandler)
        ensures
            r.phase == PinchPhase::Idle,
    {
        PinchHandler { phase: PinchPhase::Idle }
    }

    pub fn is_idle(&self) -> (r: bool)
        ensures
            r <==> self.phase == PinchPhase::Idle,
    {
        match self.phase {
            PinchPhase::Idle => true,
            PinchPhase::Tracking { .. } => false,
        }
    }

    /// The distance remembered from the previous frame, if a pinch is in progress.
    pub fn last_distance(&self) -> (r: Option<u64>)
        ensures
            r == match self.phase {
                PinchPhase::Idle => None,
                PinchPhase::Tracking { last_distance, .. } => Some(last_distance),
            },
    {
        match self.phase {
            PinchPhase::Idle => None,
            PinchPhase::Tracking { last_distance, .. } => Some(last_distance),
        }
    }
}

impl UpdateState for PinchHandler {
    open spec fn step(&self, state: RenderState, scheduler: &IOScheduler, dt: Duration) -> (
        PinchHandler,
        RenderState,
    ) {
        let (phase, next) = pinch_step(self.phase, state, scheduler.points@);
        (PinchHandler { phase }, next)
    }

    /// Follows `pinch_step`; the elapsed time plays no part.
    fn update_state(&mut self, state: &mut RenderState, scheduler: &IOScheduler, dt: Duration)
        ensures
            (final(self).phase, *final(state)) == pinch_step(
                old(self).phase,
                *old(state),
                scheduler.points@,
            ),
    {
        if scheduler.points.len() != 2 || scheduler.points[0].id == scheduler.points[1].id {
            self.phase = PinchPhase::Idle;
            return ;
        }
        let a = scheduler.points[0];
        let b = scheduler.points[1];
        let d1 = distance(a, b);
        proof {
            crate::geometry::lemma_distance_bound(a, b);
        }
        match self.phase {
            PinchPhase::Tracking { first, second, last_distance } => {
                let same = (first == a.id && second == b.id) || (first == b.id && second == a.id);
                if same && last_distance > 0 {
                    let s = state.scale as u128;
                    assert(s * (d1 as u128) < 0x2_0000_0000_0000_0000_0000_0000u128) by (nonlinear_arith)
                        requires
                            s < 0x1_0000_0000_0000_0000u128,
                            d1 < 0x2_0000_0000u128,
                    ;
                    state.set_clamped_scale(s * (d1 as u128) / (last_distance as u128));
                }
            },
            PinchPhase::Idle => {},
        }
        self.phase = PinchPhase::Tracking { first: a.id, second: b.id, last_distance: d1 };
    }
}

} // verus!
