use vstd::prelude::*;

verus! {

/// Floor of the square root of `n`, defined by counting up from zero;
/// `0` for negative `n`.
pub open spec fn isqrt_spec(n: int) -> int
    decreases n,
{
    if n < 1 {
        0
    } else {
        let r = isqrt_spec(n - 1);
        if (r + 1) * (r + 1) <= n {
            r + 1
        } else {
            r
        }
    }
}

/// `isqrt_spec(n)` is the floor of the real square root: its square is at
/// most `n`, and the next square is beyond `n`.
pub proof fn lemma_isqrt_bounds(n: int)
    requires
        n >= 0,
    ensures
        isqrt_spec(n) >= 0,
        isqrt_spec(n) * isqrt_spec(n) <= n,
        n < (isqrt_spec(n) + 1) * (isqrt_spec(n) + 1),
    decreases n,
{
    if n == 0 {
    } else {
        lemma_isqrt_bounds(n - 1);
        let r = isqrt_spec(n - 1);
        if (r + 1) * (r + 1) <= n {
            assert((r + 2) * (r + 2) > n) by (nonlinear_arith)
                requires
                    r >= 0,
                    n - 1 < (r + 1) * (r + 1),
            ;
        }
    }
}

/// Any non-negative `r` whose square brackets `n` is the floor square root.
pub proof fn lemma_isqrt_unique(n: int, r: int)
    requires
        n >= 0,
        r >= 0,
        r * r <= n,
        n < (r + 1) * (r + 1),
    ensures
        r == isqrt_spec(n),
{
    lemma_isqrt_bounds(n);
    let s = isqrt_spec(n);
    if r < s {
        assert((r + 1) * (r + 1) <= s * s) by (nonlinear_arith)
            requires
                r + 1 <= s,
                r >= 0,
        ;
    } else if s < r {
        assert((s + 1) * (s + 1) <= r * r) by (nonlinear_arith)
            requires
                s + 1 <= r,
                s >= 0,
        ;
    }
}

/// Floor of the integer square root, by searching upward from zero.
pub fn isqrt(n: u32) -> (r: u32)
    ensures
        r == isqrt_spec(n as int),
{
    let n64: u64 = n as u64;
    let mut r: u32 = 0;
    proof {
        assert(forall|x: int| x >= 65536 ==> #[trigger] (x * x) > u32::MAX as int) by (nonlinear_arith);
    }
    loop
        invariant
            n64 == n as int,
            r as int * r as int <= n as int,
            r < 65536,
        ensures
            r as int * r as int <= n as int,
            (r as int + 1) * (r as int + 1) > n as int,
        decreases n as int - r as int,
    {
        let next: u64 = (r as u64) + 1;
        proof {
            assert(next * next <= 65536 * 65536) by (nonlinear_arith)
                requires
                    1 <= next <= 65536,
            ;
        }
        if next * next > n64 {
            break;
        }
        proof {
            assert(r as int + 1 < 65536) by (nonlinear_arith)
                requires
                    (r as int + 1) * (r as int + 1) <= u32::MAX as int,
                    r as int + 1 >= 1,
            ;
            assert(r as int + 1 <= n as int) by (nonlinear_arith)
                requires
                    (r as int + 1) * (r as int + 1) <= n as int,
                    r as int + 1 >= 1,
            ;
        }
        r = r + 1;
    }
    proof {
        lemma_isqrt_unique(n as int, r as int);
    }
    r
}

/// The squared Euclidean distance between two points, as a mathematical
/// integer.
pub open spec fn dist_sq(point1: (i32, i32), point2: (i32, i32)) -> int {
    (point2.0 - point1.0) * (point2.0 - point1.0) + (point2.1 - point1.1) * (point2.1 - point1.1)
}

/// Euclidean distance between two pointer positions, rounded down to an
/// integer (the floor of the real square root of the squared distance).
///
/// The squared distance must fit in `i32`, as it does for any on-screen
/// coordinates.
pub fn euclidean_distance(point1: (i32, i32), point2: (i32, i32)) -> (r: i32)
    requires
        dist_sq(point1, point2) <= i32::MAX as int,
    ensures
        r == isqrt_spec(dist_sq(point1, point2)),
        r >= 0,
        point1 == point2 ==> r == 0,
{
    proof {
        assert(forall|x: int| #[trigger] (x * x) >= 0) by (nonlinear_arith);
        assert(forall|x: int| x >= 46341 || x <= -46341 ==> #[trigger] (x * x) > i32::MAX as int)
            by (nonlinear_arith);
    }
    let dx: i32 = point2.0 - point1.0;
    let dy: i32 = point2.1 - point1.1;
    let sq: i32 = dx * dx + dy * dy;
    let root: u32 = isqrt(sq as u32);
    proof {
        lemma_isqrt_bounds(sq as int);
        assert(root as int <= 46340) by (nonlinear_arith)
            requires
                root as int * root as int <= i32::MAX as int,
                root as int >= 0,
        ;
    }
    root as i32
}

} // verus!
