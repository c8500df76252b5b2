//! Fixed-point arithmetic for the growth controller's health curve.
//!
//! Heights and health values are integers in micro-units (one unit is
//! `SCALE`). The curve is `1 / (1 + (x - peak)^2)^(5/4) - offset`, the
//! exponent realized through a proved integer fourth root; an input equal
//! to the peak yields exactly `SCALE - HEALTH_OFFSET`.

use vstd::prelude::*;

verus! {

/// One unit in micro-units: the fixed-point scale of every height and
/// health value in the crate.
pub const SCALE: i64 = 1_000_000;

/// The curve's peak position, in micro-units (the curve is highest when
/// its input equals this value).
pub const HEALTH_PEAK: i64 = 3_000_000;

/// Constant subtracted from the curve, in micro-units.
pub const HEALTH_OFFSET: i64 = 100_000;

/// Largest curve input magnitude the fixed-point evaluation accepts, in
/// micro-units; inputs come from extracted heights, which the consumer
/// clamps well inside this bound.
pub const CURVE_INPUT_BOUND: i64 = 100_000_000;

/// The fourth power.
pub open spec fn pow4(r: int) -> int {
    r * r * r * r
}

/// `r` is the integer fourth root of `n`: the largest integer whose
/// fourth power does not exceed `n`.
pub open spec fn is_fourth_root(n: int, r: int) -> bool {
    0 <= r && pow4(r) <= n < pow4(r + 1)
}

/// `1 + (x - peak)^2` in micro-units.
pub open spec fn curve_base(x: int) -> int {
    SCALE + (x - HEALTH_PEAK) * (x - HEALTH_PEAK) / (SCALE as int)
}

/// The value whose fourth root realizes `curve_base(x)^(1/4)` in
/// micro-units: `SCALE^3 * curve_base(x)`.
pub open spec fn curve_radicand(x: int) -> int {
    SCALE * SCALE * SCALE * curve_base(x)
}

/// The curve value for input `x`, given the integer fourth root of the
/// radicand: `SCALE^2 / (base^(5/4)) - offset` in micro-units.
pub open spec fn curve_health(x: int, root: int) -> int {
    SCALE * SCALE / (curve_base(x) * root / (SCALE as int)) - HEALTH_OFFSET
}

/// `h` is the curve's value for input `x`: the quotient taken at the
/// integer fourth root of the radicand. The root is unique
/// (`lemma_fourth_root_unique`), so `h` is a function of `x`.
pub open spec fn is_curve_value(x: int, h: int) -> bool {
    exists|root: int| is_fourth_root(curve_radicand(x), root) && h == curve_health(x, root)
}

/// The fourth power does not decrease on the nonnegative integers.
pub proof fn lemma_pow4_monotone(a: int, b: int)
    requires
        0 <= a <= b,
    ensures
        pow4(a) <= pow4(b),
{
    assert(a * a * a * a <= b * b * b * b) by (nonlinear_arith)
        requires
            0 <= a <= b,
    ;
}

/// A value has exactly one integer fourth root.
pub proof fn lemma_fourth_root_unique(n: int, r1: int, r2: int)
    requires
        is_fourth_root(n, r1),
        is_fourth_root(n, r2),
    ensures
        r1 == r2,
{
    if r1 < r2 {
        lemma_pow4_monotone(r1 + 1, r2);
    }
    if r2 < r1 {
        lemma_pow4_monotone(r2 + 1, r1);
    }
}

/// The integer fourth root, by binary search.
pub fn fourth_root(n: u128) -> (r: u64)
    ensures
        is_fourth_root(n as int, r as int),
{
    let mut lo: u64 = 0;
    let mut hi: u64 = 0x1_0000_0000;
    proof {
        assert(pow4(0x1_0000_0000) == 0x1_0000_0000_0000_0000_0000_0000_0000_0000int);
    }
    while lo + 1 < hi
        invariant
            lo < hi <= 0x1_0000_0000,
            pow4(lo as int) <= n as int,
            (n as int) < pow4(hi as int),
        decreases hi - lo,
    {
        let mid: u64 = lo + (hi - lo) / 2;
        let m: u128 = mid as u128;
        proof {
            assert((m as int) * (m as int) < 0x1_0000_0000_0000_0000int) by (nonlinear_arith)
                requires
                    (m as int) < 0x1_0000_0000int,
                    0 <= m as int,
            ;
        }
        let m2: u128 = m * m;
        proof {
            assert((m2 as int) * (m2 as int) < 0x1_0000_0000_0000_0000_0000_0000_0000_0000int)
                by (nonlinear_arith)
                requires
                    (m2 as int) < 0x1_0000_0000_0000_0000int,
                    0 <= m2 as int,
            ;
        }
        let m4: u128 = m2 * m2;
        proof {
            assert(m4 as int == pow4(mid as int)) by (nonlinear_arith)
                requires
                    m as int == mid as int,
                    m2 as int == (m as int) * (m as int),
                    m4 as int == (m2 as int) * (m2 as int),
            ;
        }
        if m4 <= n {
            lo = mid;
        } else {
            hi = mid;
        }
    }
    lo
}

/// The growth controller's health curve in micro-units:
/// `SCALE^2 / (curve_base(x))^(5/4) - HEALTH_OFFSET`, where the fractional
/// power is the proved integer fourth root of `curve_radicand(x)`. The
/// result is pinned by the root's uniqueness (`lemma_fourth_root_unique`).
pub fn health_curve(x: i64) -> (h: i64)
    requires
        -CURVE_INPUT_BOUND <= x <= CURVE_INPUT_BOUND,
    ensures
        is_curve_value(x as int, h as int),
        -HEALTH_OFFSET <= h <= SCALE - HEALTH_OFFSET,
{
    let d: i64 = x - HEALTH_PEAK;
    proof {
        assert(0 <= (d as int) * (d as int) <= 10_700_000_000_000_000int) by (nonlinear_arith)
            requires
                -103_000_000 <= d as int <= 103_000_000,
        ;
    }
    let dd: i64 = d * d;
    let du: u64 = dd as u64;
    let sq: u64 = du / 1_000_000;
    let base: u64 = 1_000_000 + sq;
    proof {
        assert(base as int == curve_base(x as int));
        assert(base <= 10_701_000_000u64);
    }
    let n: u128 = 1_000_000_000_000_000_000u128 * (base as u128);
    proof {
        assert(n as int == curve_radicand(x as int));
    }
    let root: u64 = fourth_root(n);
    proof {
        assert(pow4(1_000_000) == 1_000_000_000_000_000_000_000_000int);
        assert(n as int >= pow4(1_000_000));
        if (root as int) + 1 <= 1_000_000 {
            lemma_pow4_monotone(root as int + 1, 1_000_000);
            assert(false);
        }
        assert(root >= 1_000_000);
        assert(pow4(10_300_000) == 11_255_088_100_000_000_000_000_000_000int);
        if root as int >= 10_300_000 {
            lemma_pow4_monotone(10_300_000, root as int);
            assert(false);
        }
        assert(root < 10_300_000);
        assert((base as int) * (root as int) <= 10_701_000_000int * 10_300_000int)
            by (nonlinear_arith)
            requires
                0 <= base as int <= 10_701_000_000int,
                0 <= root as int <= 10_300_000int,
        ;
        assert((base as int) * (root as int) >= 1_000_000_000_000int) by (nonlinear_arith)
            requires
                base as int >= 1_000_000int,
                root as int >= 1_000_000int,
        ;
    }
    let powed: u128 = (base as u128) * (root as u128) / 1_000_000;
    proof {
        assert(powed as int == curve_base(x as int) * (root as int) / (SCALE as int));
        assert(powed >= 1_000_000);
    }
    let num: u128 = 1_000_000_000_000u128 / powed;
    proof {
        assert(num <= 1_000_000) by {
            if num > 1_000_000 {
                assert((num as int) * (powed as int) > 1_000_000int * 1_000_000int)
                    by (nonlinear_arith)
                    requires
                        num as int > 1_000_000int,
                        powed as int >= 1_000_000int,
                ;
                vstd::arithmetic::div_mod::lemma_fundamental_div_mod(
                    1_000_000_000_000int,
                    powed as int,
                );
            }
        }
    }
    let h: i64 = (num as i64) - HEALTH_OFFSET;
    proof {
        let root_w = root as int;
        assert(is_fourth_root(curve_radicand(x as int), root_w) && h == curve_health(
            x as int,
            root_w,
        ));
    }
    h
}

} // verus!
