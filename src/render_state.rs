use vstd::prelude::*;

verus! {

/// The fixed-point unit of a scale factor: a scale of `SCALE_ONE` is 1.0.
pub const SCALE_ONE: u64 = 1_000_000;

/// `v` brought into `[lo, hi]`.
pub open spec fn clamp_spec(v: int, lo: int, hi: int) -> int {
    if v < lo {
        lo
    } else if v > hi {
        hi
    } else {
        v
    }
}

/// The view parameters that handlers mutate and the renderer reads.
///
/// `scale` is a fixed-point zoom factor (see `SCALE_ONE`), kept within
/// `[min_scale, max_scale]`; `pan_x` and `pan_y` are the view offset.
#[derive(Clone, Copy, Debug, PartialEq, Eq, Structural)]
pub struct RenderState {
    pub scale: u64,
    pub min_scale: u64,
    pub max_scale: u64,
    pub pan_x: i64,
    pub pan_y: i64,
}

impl RenderState {
    /// The scale range is positive and non-empty, and the scale lies in it.
    pub open spec fn wf(&self) -> bool {
        &&& 0 < self.min_scale
        &&& self.min_scale <= self.max_scale
        &&& self.min_scale <= self.scale <= self.max_scale
    }

    /// The same state with its scale replaced by `v` brought into range.
    pub open spec fn with_clamped_scale(self, v: int) -> RenderState {
        RenderState {
            scale: clamp_spec(v, self.min_scale as int, self.max_scale as int) as u64,
            ..self
        }
    }

    /// A state at scale 1.0 (clamped into the range) and no pan; `None` when
    /// the range is empty or not positive.
    pub fn new(min_scale: u64, max_scale: u64) -> (r: Option<RenderState>)
        ensures
            r.is_some() <==> 0 < min_scale <= max_scale,
            r matches Some(s) ==> {
                &&& s.wf()
                &&& s.min_scale == min_scale
                &&& s.max_scale == max_scale
                &&& s.scale == clamp_spec(SCALE_ONE as int, min_scale as int, max_scale as int)
                &&& s.pan_x == 0
                &&& s.pan_y == 0
            },
    {
        RenderState::with_scale(SCALE_ONE as u128, min_scale, max_scale)
    }

    /// A state at `scale` clamped into `[min_scale, max_scale]`, with no pan;
    /// `None` when the range is empty or not positive.
    pub fn with_scale(scale: u128, min_scale: u64, max_scale: u64) -> (r: Option<RenderState>)
        ensures
            r.is_some() <==> 0 < min_scale <= max_scale,
            r matches Some(s) ==> {
                &&& s.wf()
                &&& s.min_scale == min_scale
                &&& s.max_scale == max_scale
                &&& s.scale == clamp_spec(scale as int, min_scale as int, max_scale as int)
                &&& s.pan_x == 0
                &&& s.pan_y == 0
            },
    {
        if min_scale == 0 || min_scale > max_scale {
            None
        } else {
            Some(
                RenderState {
                    scale: clamp_scale(scale, min_scale, max_scale),
                    min_scale,
                    max_scale,
                    pan_x: 0,
                    pan_y: 0,
                },
            )
        }
    }

    /// Replaces the scale by `v` brought into the state's range.
    pub fn set_clamped_scale(&mut self, v: u128)
        requires
            old(self).wf(),
        ensures
            *final(self) == old(self).with_clamped_scale(v as int),
            final(self).wf(),
    {
        self.scale = clamp_scale(v, self.min_scale, self.max_scale);
    }

    pub fn scale(&self) -> (r: u64)
        ensures
            r == self.scale,
    {
        self.scale
    }
}

/// `v` brought into `[lo, hi]`.
pub fn clamp_scale(v: u128, lo: u64, hi: u64) -> (r: u64)
    requires
        lo <= hi,
    ensures
        r == clamp_spec(v as int, lo as int, hi as int),
{
    if v < lo as u128 {
        lo
    } else if v > hi as u128 {
        hi
    } else {
        v as u64
    }
}

} // verus!
