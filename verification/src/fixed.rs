//! Scalar 16.16 fixed-point arithmetic.
//!
//! A value `x` stands for the real number `x / 65536`. Every operation
//! saturates at `±FP_MAX`, so each one is total on well-formed inputs and
//! returns a well-formed result; a spec mirror states each result exactly.

use vstd::prelude::*;

verus! {

/// The fixed-point representation of 1.0.
pub const FP_ONE: i64 = 65536;
/// The fixed-point representation of 0.5.
pub const FP_HALF: i64 = 32768;
/// Largest magnitude a fixed-point value may take (2^31, about 32768.0).
pub const FP_MAX: i64 = 2147483648;
/// Shadow-acne guard: smallest hit distance accepted (about 0.001).
pub const FP_EPS: i64 = 66;

/// A well-formed fixed-point value: magnitude at most `FP_MAX`.
pub open spec fn fp_ok(x: int) -> bool {
    -FP_MAX <= x <= FP_MAX
}

/// Saturate to the representable range.
pub open spec fn clamp_s(x: int) -> int {
    if x > FP_MAX {
        FP_MAX as int
    } else if x < -(FP_MAX as int) {
        -(FP_MAX as int)
    } else {
        x
    }
}

pub open spec fn abs_s(x: int) -> int {
    if x < 0 {
        -x
    } else {
        x
    }
}

/// Saturating fixed-point sum.
pub open spec fn add_s(a: int, b: int) -> int {
    clamp_s(a + b)
}

/// Saturating fixed-point difference.
pub open spec fn sub_s(a: int, b: int) -> int {
    clamp_s(a - b)
}

/// Saturating fixed-point product: magnitudes are multiplied, rescaled by
/// truncating division, and the sign reattached.
pub open spec fn mul_s(a: int, b: int) -> int {
    let m = (abs_s(a) * abs_s(b)) / 65536;
    if (a < 0) != (b < 0) {
        clamp_s(-m)
    } else {
        clamp_s(m)
    }
}

/// Saturating fixed-point quotient; division by zero yields zero.
pub open spec fn div_s(a: int, b: int) -> int {
    if b == 0 {
        0
    } else {
        let m = (abs_s(a) * 65536) / abs_s(b);
        if (a < 0) != (b < 0) {
            clamp_s(-m)
        } else {
            clamp_s(m)
        }
    }
}

pub fn add_fp(a: i64, b: i64) -> (r: i64)
    requires
        fp_ok(a as int),
        fp_ok(b as int),
    ensures
        r == add_s(a as int, b as int),
        fp_ok(r as int),
{
    let s: i64 = a + b;
    if s > FP_MAX {
        FP_MAX
    } else if s < -FP_MAX {
        -FP_MAX
    } else {
        s
    }
}

pub fn sub_fp(a: i64, b: i64) -> (r: i64)
    requires
        fp_ok(a as int),
        fp_ok(b as int),
    ensures
        r == sub_s(a as int, b as int),
        fp_ok(r as int),
{
    let s: i64 = a - b;
    if s > FP_MAX {
        FP_MAX
    } else if s < -FP_MAX {
        -FP_MAX
    } else {
        s
    }
}

pub fn neg_fp(a: i64) -> (r: i64)
    requires
        fp_ok(a as int),
    ensures
        r == -(a as int),
        fp_ok(r as int),
{
    -a
}

pub fn mul_fp(a: i64, b: i64) -> (r: i64)
    requires
        fp_ok(a as int),
        fp_ok(b as int),
    ensures
        r == mul_s(a as int, b as int),
        fp_ok(r as int),
{
    let neg: bool = (a < 0) != (b < 0);
    let ma: u64 = if a >= 0 {
        a as u64
    } else {
        (-a) as u64
    };
    let mb: u64 = if b >= 0 {
        b as u64
    } else {
        (-b) as u64
    };
    proof {
        assert(ma == abs_s(a as int));
        assert(mb == abs_s(b as int));
        vstd::arithmetic::mul::lemma_mul_upper_bound(
            ma as int,
            FP_MAX as int,
            mb as int,
            FP_MAX as int,
        );
    }
    let p: u64 = ma * mb;
    let q: u64 = p / 65536;
    let qc: u64 = if q > 2147483648u64 {
        2147483648u64
    } else {
        q
    };
    if neg {
        -(qc as i64)
    } else {
        qc as i64
    }
}

pub fn div_fp(a: i64, b: i64) -> (r: i64)
    requires
        fp_ok(a as int),
        fp_ok(b as int),
    ensures
        r == div_s(a as int, b as int),
        fp_ok(r as int),
{
    if b == 0 {
        return 0;
    }
    let neg: bool = (a < 0) != (b < 0);
    let ma: u64 = if a >= 0 {
        a as u64
    } else {
        (-a) as u64
    };
    let mb: u64 = if b >= 0 {
        b as u64
    } else {
        (-b) as u64
    };
    proof {
        assert(ma == abs_s(a as int));
        assert(mb == abs_s(b as int));
    }
    let p: u64 = ma * 65536;
    let q: u64 = p / mb;
    let qc: u64 = if q > 2147483648u64 {
        2147483648u64
    } else {
        q
    };
    if neg {
        -(qc as i64)
    } else {
        qc as i64
    }
}

/// Multiplying by one is exact: no rounding and no saturation.
pub proof fn lemma_one_mul(c: int)
    requires
        fp_ok(c),
    ensures
        mul_s(FP_ONE as int, c) == c,
{
    assert(abs_s(FP_ONE as int) == 65536);
    vstd::arithmetic::div_mod::lemma_div_multiples_vanish(abs_s(c), 65536);
    assert(65536 * abs_s(c) == abs_s(c) * 65536) by (nonlinear_arith);
}

/// Multiplying by zero gives zero.
pub proof fn lemma_mul_zero(c: int)
    ensures
        mul_s(c, 0) == 0,
{
    assert(abs_s(c) * abs_s(0) == 0) by (nonlinear_arith);
    assert(0int / 65536int == 0int);
}

/// The unit interval is closed under the fixed-point product.
pub proof fn lemma_mul_s_unit_interval(a: int, b: int)
    requires
        0 <= a <= FP_ONE,
        0 <= b <= FP_ONE,
    ensures
        0 <= mul_s(a, b) <= FP_ONE,
{
    assert(a * b <= 65536 * 65536) by (nonlinear_arith)
        requires
            0 <= a <= 65536 && 0 <= b <= 65536,
    ;
    assert(a * b >= 0) by (nonlinear_arith)
        requires
            a >= 0 && b >= 0,
    ;
    vstd::arithmetic::div_mod::lemma_div_pos_is_pos(a * b, 65536);
    vstd::arithmetic::div_mod::lemma_div_is_ordered(a * b, 65536int * 65536int, 65536);
    assert(65536int * 65536int / 65536int == 65536int);
}

/// `r` is the integer square root of `n`.
pub open spec fn is_sqrt(n: int, r: int) -> bool {
    0 <= r && r * r <= n && n < (r + 1) * (r + 1)
}

/// The integer square root, as the unique root the property picks out.
pub closed spec fn sqrt_s(n: int) -> int {
    choose|r: int| is_sqrt(n, r)
}

pub proof fn lemma_sqrt_unique(n: int, r1: int, r2: int)
    requires
        is_sqrt(n, r1),
        is_sqrt(n, r2),
    ensures
        r1 == r2,
{
    if r1 < r2 {
        assert((r1 + 1) * (r1 + 1) <= r2 * r2) by (nonlinear_arith)
            requires
                0 <= r1,
                r1 + 1 <= r2,
        ;
    }
    if r2 < r1 {
        assert((r2 + 1) * (r2 + 1) <= r1 * r1) by (nonlinear_arith)
            requires
                0 <= r2,
                r2 + 1 <= r1,
        ;
    }
}

pub proof fn lemma_sqrt_is(n: int, r: int)
    requires
        is_sqrt(n, r),
    ensures
        sqrt_s(n) == r,
{
    assert(is_sqrt(n, sqrt_s(n)));
    lemma_sqrt_unique(n, sqrt_s(n), r);
}

/// Integer square root by bisection; the input must stay below 2^48.
pub fn isqrt(n: u64) -> (r: u64)
    requires
        n < 281474976710656u64,
    ensures
        is_sqrt(n as int, r as int),
        r == sqrt_s(n as int),
        r <= 16777216u64,
{
    let mut lo: u64 = 0;
    let mut hi: u64 = 16777216;
    assert(16777216int * 16777216int == 281474976710656int) by (nonlinear_arith);
    while lo + 1 < hi
        invariant
            lo < hi <= 16777216u64,
            lo * lo <= n,
            (n as int) < (hi as int) * (hi as int),
        decreases hi - lo,
    {
        let mid: u64 = lo + (hi - lo) / 2;
        proof {
            vstd::arithmetic::mul::lemma_mul_upper_bound(
                mid as int,
                16777216int,
                mid as int,
                16777216int,
            );
        }
        let sq: u64 = mid * mid;
        if sq <= n {
            lo = mid;
        } else {
            hi = mid;
        }
    }
    proof {
        assert(hi == lo + 1);
        lemma_sqrt_is(n as int, lo as int);
    }
    lo
}

/// Fixed-point square root of a non-negative value.
pub open spec fn sqrt_fp_s(x: int) -> int {
    sqrt_s(x * 65536)
}

pub fn sqrt_fp(x: i64) -> (r: i64)
    requires
        0 <= x <= FP_MAX,
    ensures
        r == sqrt_fp_s(x as int),
        0 <= r <= 16777216i64,
        fp_ok(r as int),
{
    let v: u64 = (x as u64) * 65536;
    let s: u64 = isqrt(v);
    s as i64
}

} // verus!
