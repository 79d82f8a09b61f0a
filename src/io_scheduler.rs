use vstd::prelude::*;

verus! {

/// One active touch: a per-touch identity, stable across frames for the same
/// physical touch, and a position.
#[derive(Clone, Copy, Debug, PartialEq, Eq, Structural)]
pub struct TouchPoint {
    pub id: u64,
    pub x: i32,
    pub y: i32,
}

/// The input snapshot of the current frame. Handlers only read it; the
/// driver replaces the snapshot between frames.
#[derive(Debug)]
pub struct IOScheduler {
    pub points: Vec<TouchPoint>,
}

impl IOScheduler {
    pub fn new(points: Vec<TouchPoint>) -> (r: IOScheduler)
        ensures
            r.points@ == points@,
    {
        IOScheduler { points }
    }

    /// Replaces the snapshot with the next frame's touches.
    pub fn set_points(&mut self, points: Vec<TouchPoint>)
        ensures
            final(self).points@ == points@,
    {
        self.points = points;
    }

    pub fn point_count(&self) -> (r: usize)
        ensures
            r == self.points@.len(),
    {
        self.points.len()
    }
}

} // verus!
