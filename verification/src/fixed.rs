//! Fixed-point arithmetic for map coordinates, pan offsets and zoom factors.
//!
//! Every quantity the map works with is a signed count of millionths: the
//! value `v` stands for `v / UNIT`. Sums and differences of such counts are
//! exact; a quotient is rounded to the nearest count, a tie going up.

use vstd::prelude::*;
use vstd::arithmetic::div_mod::lemma_fundamental_div_mod_converse;

verus! {

/// The count that stands for one whole unit.
pub const UNIT: i64 = 1_000_000;

/// The count that stands for one tenth of a unit.
pub const TENTH: i64 = 100_000;

/// The largest magnitude of a coordinate that the rasterizer accepts.
pub const COORD_LIMIT: i64 = 1_000_000_000_000_000;

/// Whether `v` can be held in an `i64`.
pub open spec fn fits_i64(v: int) -> bool {
    i64::MIN <= v <= i64::MAX
}

/// `v` as an `i64`, where it can be held in one.
pub open spec fn narrowed(v: int) -> Option<i64> {
    if fits_i64(v) {
        Some(v as i64)
    } else {
        None
    }
}

/// Narrows `v` to an `i64` where that loses nothing.
pub fn narrow(v: i128) -> (r: Option<i64>)
    ensures
        r == narrowed(v as int),
{
    if v < i64::MIN as i128 || v > i64::MAX as i128 {
        None
    } else {
        Some(v as i64)
    }
}

/// `n / d` rounded to the nearest integer, a tie going up.
pub open spec fn rounded_quotient(n: int, d: int) -> int
    recommends
        d > 0,
{
    (2 * n + d) / (2 * d)
}

/// The rounded quotient is within half a step of the exact one.
pub proof fn lemma_rounded_quotient_is_nearest(n: int, d: int)
    requires
        d > 0,
    ensures
        -d <= 2 * (n - rounded_quotient(n, d) * d) < d,
{
    let k = rounded_quotient(n, d);
    let x = 2 * n + d;
    vstd::arithmetic::div_mod::lemma_fundamental_div_mod(x, 2 * d);
    vstd::arithmetic::div_mod::lemma_mod_bound(x, 2 * d);
    assert(x == (2 * d) * k + x % (2 * d));
    assert((2 * d) * k == 2 * (k * d)) by (nonlinear_arith);
}

/// No other integer is within half a step, a tie going up.
pub proof fn lemma_rounded_quotient_unique(n: int, d: int, k: int)
    requires
        d > 0,
        -d <= 2 * (n - k * d) < d,
    ensures
        k == rounded_quotient(n, d),
{
    let r = 2 * (n - k * d) + d;
    assert(k * (2 * d) + r == 2 * n + d) by (nonlinear_arith)
        requires
            r == 2 * (n - k * d) + d,
    ;
    lemma_fundamental_div_mod_converse(2 * n + d, 2 * d, k, r);
}

/// The rounded quotient never grows when the divisor does, for a dividend
/// that is not negative.
pub proof fn lemma_rounded_quotient_antitone(n: int, d1: int, d2: int)
    requires
        0 <= n,
        0 < d1 <= d2,
    ensures
        rounded_quotient(n, d1) >= rounded_quotient(n, d2) >= 0,
{
    let k1 = rounded_quotient(n, d1);
    let k2 = rounded_quotient(n, d2);
    lemma_rounded_quotient_is_nearest(n, d1);
    lemma_rounded_quotient_is_nearest(n, d2);
    assert(k2 >= 0) by (nonlinear_arith)
        requires
            0 <= n,
            0 < d2,
            2 * (n - k2 * d2) < d2,
    ;
    if k1 < k2 {
        // 2n < (2 k1 + 1) d1 <= (2 k2 - 1) d1 <= (2 k2 - 1) d2 <= 2n
        assert(false) by (nonlinear_arith)
            requires
                0 < d1 <= d2,
                0 <= k2,
                k1 + 1 <= k2,
                2 * (n - k1 * d1) < d1,
                -d2 <= 2 * (n - k2 * d2),
                0 <= n,
        {
            assert((2 * k1 + 1) * d1 <= (2 * k2 - 1) * d1);
            assert((2 * k2 - 1) * d1 <= (2 * k2 - 1) * d2);
        }
    }
}

/// Computes `n / d` rounded to the nearest integer, a tie going up.
pub fn div_rounded(n: i128, d: i128) -> (q: i128)
    requires
        d > 0,
        n > i128::MIN,
    ensures
        q == rounded_quotient(n as int, d as int),
{
    let a: i128 = if n < 0 { -n } else { n };
    let qa: i128 = a / d;
    let ra: i128 = a % d;
    proof {
        vstd::arithmetic::div_mod::lemma_fundamental_div_mod(a as int, d as int);
        vstd::arithmetic::div_mod::lemma_div_pos_is_pos(a as int, d as int);
    }
    let below: bool = n < 0 && ra != 0;
    let f: i128 = if n >= 0 { qa } else if below { -qa - 1 } else { -qa };
    let r: i128 = if below { d - ra } else if n >= 0 { ra } else { 0 };
    assert(n == f * d + r && 0 <= r < d) by (nonlinear_arith)
        requires
            a == d * qa + ra,
            a == if n < 0 { -n } else { n as int },
            0 <= ra < d,
            below == (n < 0 && ra != 0),
            f == if n >= 0 { qa as int } else if below { -qa - 1 } else { -qa as int },
            r == if below { d - ra } else if n >= 0 { ra as int } else { 0 },
    ;
    let up: bool = r >= d - r;
    let ghost k: int = if up { f + 1 } else { f as int };
    proof {
        assert(-d <= 2 * (n - k * d) < d) by (nonlinear_arith)
            requires
                n == f * d + r,
                0 <= r < d,
                up == (r >= d - r),
                k == if up { f + 1 } else { f as int },
        ;
        lemma_rounded_quotient_unique(n as int, d as int, k);
        assert(i128::MIN <= k <= i128::MAX) by (nonlinear_arith)
            requires
                -d <= 2 * (n - k * d) < d,
                d > 0,
                i128::MIN < n <= i128::MAX,
        ;
    }
    if up {
        f + 1
    } else {
        f
    }
}

/// The largest integer whose square is at most `n`.
pub open spec fn sqrt_floor(n: nat) -> nat
    decreases n,
{
    if n == 0 {
        0
    } else {
        let r = sqrt_floor((n - 1) as nat);
        if (r + 1) * (r + 1) <= n {
            r + 1
        } else {
            r
        }
    }
}

/// `sqrt_floor(n)` squared is at most `n`, and the next integer squared is
/// more.
pub proof fn lemma_sqrt_floor_bounds(n: nat)
    ensures
        sqrt_floor(n) * sqrt_floor(n) <= n < (sqrt_floor(n) + 1) * (sqrt_floor(n) + 1),
    decreases n,
{
    let s = sqrt_floor(n);
    if n > 0 {
        lemma_sqrt_floor_bounds((n - 1) as nat);
        let r = sqrt_floor((n - 1) as nat);
        if (r + 1) * (r + 1) <= n {
            assert(s == r + 1);
            assert(n < (s + 1) * (s + 1)) by (nonlinear_arith)
                requires
                    0 <= r,
                    s == r + 1,
                    n - 1 < (r + 1) * (r + 1),
            ;
        } else {
            assert(s == r);
        }
    } else {
        assert(s == 0);
        assert((s + 1) * (s + 1) == 1) by (nonlinear_arith)
            requires
                s == 0,
        ;
    }
}

/// Only one integer lies that close under the root of `n`.
pub proof fn lemma_sqrt_floor_unique(n: nat, r: nat)
    requires
        r * r <= n < (r + 1) * (r + 1),
    ensures
        r == sqrt_floor(n),
{
    let s = sqrt_floor(n);
    lemma_sqrt_floor_bounds(n);
    if r < s {
        assert((r + 1) * (r + 1) <= s * s) by (nonlinear_arith)
            requires
                0 <= r,
                r + 1 <= s,
        ;
    } else if s < r {
        assert((s + 1) * (s + 1) <= r * r) by (nonlinear_arith)
            requires
                0 <= s,
                s + 1 <= r,
        ;
    }
}

/// Computes the largest integer whose square is at most `n`.
pub fn isqrt(n: u128) -> (r: u64)
    ensures
        r == sqrt_floor(n as nat),
        r * r <= n < (r + 1) * (r + 1),
{
    let mut lo: u128 = 0;
    let mut hi: u128 = 0x1_0000_0000_0000_0000;
    assert(n < hi * hi) by (nonlinear_arith)
        requires
            n <= u128::MAX,
            hi == 0x1_0000_0000_0000_0000,
    ;
    while hi - lo > 1
        invariant
            lo < hi <= 0x1_0000_0000_0000_0000,
            lo * lo <= n < hi * hi,
        decreases hi - lo,
    {
        let mid: u128 = lo + (hi - lo) / 2;
        assert(mid * mid <= u128::MAX) by (nonlinear_arith)
            requires
                0 <= mid < 0x1_0000_0000_0000_0000,
        ;
        if mid * mid <= n {
            lo = mid;
        } else {
            hi = mid;
        }
    }
    proof {
        lemma_sqrt_floor_unique(n as nat, lo as nat);
    }
    lo as u64
}

} // verus!
