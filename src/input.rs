use vstd::prelude::*;
use crate::io_scheduler::IOScheduler;
use crate::render_state::RenderState;
use std::time::Duration;

pub mod pinch_handler;
pub mod pinch_laws;

verus! {

/// The per-frame capability of an input handler: read the scheduler's
/// snapshot and the elapsed time, and mutate the shared render state.
///
/// A handler has no error channel: on input it cannot act on it does
/// nothing. Whatever it does, the render state stays well formed.
pub trait UpdateState: Sized {
    /// The handler and the render state after one update from `state`.
    spec fn step(&self, state: RenderState, scheduler: &IOScheduler, dt: Duration) -> (
        Self,
        RenderState,
    );

    fn update_state(&mut self, state: &mut RenderState, scheduler: &IOScheduler, dt: Duration)
        requires
            old(state).wf(),
        ensures
            final(state).wf(),
            (*final(self), *final(state)) == old(self).step(*old(state), scheduler, dt),
    ;
}

/// The handlers and the render state after the first `n` of `hs` have each
/// updated the state in turn, starting from `st`.
pub open spec fn run_prefix<H: UpdateState>(
    hs: Seq<H>,
    st: RenderState,
    scheduler: &IOScheduler,
    dt: Duration,
    n: nat,
) -> (Seq<H>, RenderState)
    decreases n,
{
    if n == 0 || n > hs.len() {
        (hs, st)
    } else {
        let (done, mid) = run_prefix(hs, st, scheduler, dt, (n - 1) as nat);
        let (h, next) = hs[n - 1].step(mid, scheduler, dt);
        (done.update(n - 1, h), next)
    }
}

/// One frame of the update loop: each handler, in registration order, gets
/// the render state in turn, so that it sees what the earlier ones did.
pub fn run_frame<H: UpdateState>(
    handlers: &mut Vec<H>,
    state: &mut RenderState,
    scheduler: &IOScheduler,
    dt: Duration,
)
    requires
        old(state).wf(),
    ensures
        final(state).wf(),
        (final(handlers)@, *final(state)) == run_prefix(
            old(handlers)@,
            *old(state),
            scheduler,
            dt,
            old(handlers)@.len(),
        ),
{
    let n = handlers.len();
    let mut i: usize = 0;
    while i < n
        invariant
            state.wf(),
            handlers@.len() == n,
            n == old(handlers)@.len(),
            i <= n,
            (handlers@, *state) == run_prefix(old(handlers)@, *old(state), scheduler, dt, i as nat),
            forall|j: int| i <= j < n ==> handlers@[j] == old(handlers)@[j],
        decreases n - i,
    {
        handlers[i].update_state(state, scheduler, dt);
        i += 1;
    }
}

} // verus!
