use vstd::prelude::*;
use crate::io_scheduler::TouchPoint;

verus! {

/// `r` is the square root of `n`, rounded down.
pub open spec fn is_floor_sqrt(n: nat, r: nat) -> bool {
    r * r <= n && n < (r + 1) * (r + 1)
}

/// The square root of `n`, rounded down.
pub open spec fn floor_sqrt(n: nat) -> nat {
    choose|r: nat| is_floor_sqrt(n, r)
}

/// The squared Euclidean distance between two touches.
pub open spec fn squared_distance(a: TouchPoint, b: TouchPoint) -> nat {
    let dx = b.x - a.x;
    let dy = b.y - a.y;
    (dx * dx + dy * dy) as nat
}

/// The Euclidean distance between two touches, rounded down.
pub open spec fn distance_spec(a: TouchPoint, b: TouchPoint) -> nat {
    floor_sqrt(squared_distance(a, b))
}

/// There is one rounded-down square root of `n`, and `floor_sqrt` is it.
pub proof fn lemma_floor_sqrt_unique(n: nat, r: nat)
    requires
        is_floor_sqrt(n, r),
    ensures
        floor_sqrt(n) == r,
{
    let s = floor_sqrt(n);
    assert(is_floor_sqrt(n, s));
    if s < r {
        assert((s + 1) * (s + 1) <= r * r) by (nonlinear_arith)
            requires
                s + 1 <= r,
        ;
    } else if r < s {
        assert((r + 1) * (r + 1) <= s * s) by (nonlinear_arith)
            requires
                r + 1 <= s,
        ;
    }
}

/// Every natural number has a rounded-down square root.
pub proof fn lemma_floor_sqrt_exists(n: nat)
    ensures
        is_floor_sqrt(n, floor_sqrt(n)),
    decreases n,
{
    if n == 0 {
        assert(is_floor_sqrt(0, 0)) by (nonlinear_arith);
    } else {
        lemma_floor_sqrt_exists((n - 1) as nat);
        let r = floor_sqrt((n - 1) as nat);
        if (r + 1) * (r + 1) <= n {
            assert(n < (r + 2) * (r + 2)) by (nonlinear_arith)
                requires
                    n - 1 < (r + 1) * (r + 1),
            ;
            assert(is_floor_sqrt(n, r + 1));
        } else {
            assert(is_floor_sqrt(n, r));
        }
    }
}

/// The distance between two touches fits in 33 bits.
pub proof fn lemma_distance_bound(a: TouchPoint, b: TouchPoint)
    ensures
        distance_spec(a, b) < 0x2_0000_0000,
{
    let dx = b.x - a.x;
    let dy = b.y - a.y;
    assert(dx * dx <= 0x1_0000_0000_0000_0000 && 0 <= dx * dx) by (nonlinear_arith)
        requires
            -0x1_0000_0000 <= dx <= 0x1_0000_0000,
    ;
    assert(dy * dy <= 0x1_0000_0000_0000_0000 && 0 <= dy * dy) by (nonlinear_arith)
        requires
            -0x1_0000_0000 <= dy <= 0x1_0000_0000,
    ;
    let n = squared_distance(a, b);
    lemma_floor_sqrt_exists(n);
    let r = floor_sqrt(n);
    assert(r < 0x2_0000_0000) by (nonlinear_arith)
        requires
            r * r <= n,
            n <= 0x2_0000_0000_0000_0000nat,
    ;
}

/// The square root of `n`, rounded down.
pub fn isqrt(n: u128) -> (r: u64)
    ensures
        r == floor_sqrt(n as nat),
{
    let mut lo: u128 = 0;
    let mut hi: u128 = 0x1_0000_0000_0000_0000u128;
    assert(n < hi * hi);
    while hi - lo > 1
        invariant
            lo < hi <= 0x1_0000_0000_0000_0000u128,
            lo * lo <= n,
            n < hi * hi,
        decreases hi - lo,
    {
        let mid: u128 = lo + (hi - lo) / 2;
        assert(mid * mid <= u128::MAX) by (nonlinear_arith)
            requires
                mid <= 0xffff_ffff_ffff_ffffu128,
        ;
        if mid * mid <= n {
            lo = mid;
        } else {
            hi = mid;
        }
    }
    assert(hi == lo + 1);
    proof {
        lemma_floor_sqrt_unique(n as nat, lo as nat);
    }
    lo as u64
}

/// The distance between two touches, rounded down.
pub fn distance(a: TouchPoint, b: TouchPoint) -> (r: u64)
    ensures
        r == distance_spec(a, b),
{
    let dx: i128 = b.x as i128 - a.x as i128;
    let dy: i128 = b.y as i128 - a.y as i128;
    assert(dx * dx <= 0x1_0000_0000_0000_0000i128 && 0 <= dx * dx) by (nonlinear_arith)
        requires
            -0x1_0000_0000i128 <= dx <= 0x1_0000_0000i128,
    ;
    assert(dy * dy <= 0x1_0000_0000_0000_0000i128 && 0 <= dy * dy) by (nonlinear_arith)
        requires
            -0x1_0000_0000i128 <= dy <= 0x1_0000_0000i128,
    ;
    let sq: u128 = (dx * dx + dy * dy) as u128;
    isqrt(sq)
}

} // verus!
