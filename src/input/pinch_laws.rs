use vstd::prelude::*;
use vstd::arithmetic::div_mod::lemma_div_by_multiple;
use crate::geometry::{distance_spec, lemma_distance_bound};
use crate::input::pinch_handler::{pinch_pair, pinch_step, same_touches, PinchPhase};
use crate::io_scheduler::TouchPoint;
use crate::render_state::{clamp_spec, RenderState};

verus! {

/// The phase and render state after feeding `frames` to the pinch gesture,
/// one snapshot per frame, in order.
pub open spec fn pinch_run(phase: PinchPhase, st: RenderState, frames: Seq<Seq<TouchPoint>>) -> (
    PinchPhase,
    RenderState,
)
    decreases frames.len(),
{
    if frames.len() == 0 {
        (phase, st)
    } else {
        let (p, s) = pinch_step(phase, st, frames[0]);
        pinch_run(p, s, frames.drop_first())
    }
}

/// One pinch frame keeps the scale within `[min_scale, max_scale]`.
pub proof fn lemma_step_keeps_scale_in_range(
    phase: PinchPhase,
    st: RenderState,
    points: Seq<TouchPoint>,
)
    requires
        st.wf(),
    ensures
        pinch_step(phase, st, points).1.wf(),
        pinch_step(phase, st, points).1.min_scale == st.min_scale,
        pinch_step(phase, st, points).1.max_scale == st.max_scale,
{
}

/// Whatever the frames, the scale stays within `[min_scale, max_scale]`
/// after each of them (each prefix of `frames` is itself a sequence of frames).
pub proof fn lemma_run_keeps_scale_in_range(
    phase: PinchPhase,
    st: RenderState,
    frames: Seq<Seq<TouchPoint>>,
)
    requires
        st.wf(),
    ensures
        pinch_run(phase, st, frames).1.wf(),
    decreases frames.len(),
{
    if frames.len() > 0 {
        lemma_step_keeps_scale_in_range(phase, st, frames[0]);
        let (p, s) = pinch_step(phase, st, frames[0]);
        lemma_run_keeps_scale_in_range(p, s, frames.drop_first());
    }
}

/// Frames that each report fewer than two touches leave the render state
/// as it was, and leave the gesture idle.
pub proof fn lemma_few_touches_reset(
    phase: PinchPhase,
    st: RenderState,
    frames: Seq<Seq<TouchPoint>>,
)
    requires
        frames.len() > 0,
        forall|i: int| 0 <= i < frames.len() ==> #[trigger] frames[i].len() < 2,
    ensures
        pinch_run(phase, st, frames) == (PinchPhase::Idle, st),
    decreases frames.len(),
{
    assert(frames[0].len() < 2);
    assert(pinch_step(phase, st, frames[0]) == (PinchPhase::Idle, st));
    let rest = frames.drop_first();
    if rest.len() == 0 {
        assert(pinch_run(PinchPhase::Idle, st, rest) == (PinchPhase::Idle, st));
    } else {
        assert forall|i: int| 0 <= i < rest.len() implies #[trigger] rest[i].len() < 2 by {
            assert(rest[i] == frames[i + 1]);
        }
        lemma_few_touches_reset(PinchPhase::Idle, st, rest);
    }
}

/// When the two tracked touches, last seen `d0 > 0` apart, are `d1` apart
/// now, the scale is multiplied by `d1 / d0` before clamping, and `d1`
/// becomes the remembered distance.
pub proof fn lemma_pinch_scales_by_ratio(
    first: u64,
    second: u64,
    d0: u64,
    st: RenderState,
    points: Seq<TouchPoint>,
)
    requires
        d0 > 0,
        points.len() == 2,
        points[0].id != points[1].id,
        same_touches(first, second, points[0], points[1]),
    ensures
        ({
            let d1 = distance_spec(points[0], points[1]);
            let (p, s) = pinch_step(
                PinchPhase::Tracking { first, second, last_distance: d0 },
                st,
                points,
            );
            &&& s.scale == clamp_spec(
                st.scale * d1 / (d0 as int),
                st.min_scale as int,
                st.max_scale as int,
            )
            &&& s == RenderState { scale: s.scale, ..st }
            &&& p == PinchPhase::Tracking {
                first: points[0].id,
                second: points[1].id,
                last_distance: d1 as u64,
            }
        }),
{
}

/// The elapsed time plays no part in a pinch frame, and handing the same
/// snapshot twice changes nothing the second time: neither the render state
/// nor the phase.
pub proof fn lemma_repeated_snapshot_is_stable(
    phase: PinchPhase,
    st: RenderState,
    points: Seq<TouchPoint>,
)
    requires
        st.wf(),
    ensures
        ({
            let (p1, s1) = pinch_step(phase, st, points);
            pinch_step(p1, s1, points) == (p1, s1)
        }),
{
    let (p1, s1) = pinch_step(phase, st, points);
    lemma_step_keeps_scale_in_range(phase, st, points);
    if let Some((a, b)) = pinch_pair(points) {
        let d1 = distance_spec(a, b);
        lemma_distance_bound(a, b);
        assert(d1 as u64 == d1);
        if d1 > 0 {
            lemma_div_by_multiple(s1.scale as int, d1 as int);
            assert(s1.scale * d1 / (d1 as int) == s1.scale);
            assert(s1.with_clamped_scale(s1.scale as int) == s1);
        }
    }
}

} // verus!
