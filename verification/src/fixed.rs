use vstd::prelude::*;
use vstd::arithmetic::div_mod::{
    lemma_div_is_ordered, lemma_fundamental_div_mod, lemma_fundamental_div_mod_converse,
};
use vstd::arithmetic::mul::lemma_mul_upper_bound;
use vstd::arithmetic::power2::{lemma2_to64_rest, lemma_pow2_unfold, pow2};
use crate::ohlcv::{Price, ONE};

verus! {

/// Largest operand of the fixed-point product and square root: `2^80`.
pub const OPERAND_MAX: u128 = 0x1_0000_0000_0000_0000_0000;

/// Largest radicand of the fixed-point square root: `2^110`.
pub const RADICAND_MAX: u128 = 0x4000_0000_0000_0000_0000_0000_0000;

/// Largest divisor that [`ratio`] accepts: `2^100`.
pub const DIVISOR_MAX: u128 = 0x10_0000_0000_0000_0000_0000_0000;

/// Largest quotient `num / den` that [`ratio`] accepts.
pub const QUOTIENT_MAX: u128 = 0xffff;

const UNIT: u128 = 0x1_0000_0000_0000;

/// The fixed-point product of `a` and `b`, rounded down.
pub open spec fn mul_fixed(a: int, b: int) -> int {
    (a * b) / (ONE as int)
}

/// The fixed-point quotient of `num` by `den`, rounded down.
pub open spec fn div_fixed(num: int, den: int) -> int {
    (num * ONE) / den
}

/// Whether `root` is the fixed-point square root of `v`, rounded down.
pub open spec fn is_sqrt_fixed(v: int, root: int) -> bool {
    &&& 0 <= root
    &&& root * root <= v * ONE
    &&& v * ONE < (root + 1) * (root + 1)
}

/// The fixed-point square root of `v`, rounded down.
pub open spec fn sqrt_fixed(v: int) -> int {
    choose|root: int| is_sqrt_fixed(v, root)
}

/// A number has at most one rounded-down square root.
pub proof fn lemma_sqrt_fixed_unique(v: int, r1: int, r2: int)
    requires
        is_sqrt_fixed(v, r1),
        is_sqrt_fixed(v, r2),
    ensures
        r1 == r2,
{
    if r1 < r2 {
        assert((r1 + 1) * (r1 + 1) <= r2 * r2) by (nonlinear_arith)
            requires
                0 <= r1,
                r1 + 1 <= r2,
        ;
    } else if r2 < r1 {
        assert((r2 + 1) * (r2 + 1) <= r1 * r1) by (nonlinear_arith)
            requires
                0 <= r2,
                r2 + 1 <= r1,
        ;
    }
}

/// The rounded-down mean of `n` numbers, each within `-bound ..= bound`,
/// lies within `-bound ..= bound`.
pub proof fn lemma_mean_bounded(sum: int, n: int, bound: int)
    requires
        0 < n,
        -n * bound <= sum <= n * bound,
    ensures
        -bound <= sum / n <= bound,
{
    assert(bound * n == n * bound && (-bound) * n == -n * bound) by (nonlinear_arith);
    lemma_div_is_ordered(sum, n * bound, n);
    lemma_div_is_ordered(-n * bound, sum, n);
    lemma_fundamental_div_mod_converse(n * bound, n, bound, 0);
    lemma_fundamental_div_mod_converse(-n * bound, n, -bound, 0);
}

/// `a / n` rounded toward negative infinity.
pub fn floor_div(a: i128, n: i128) -> (q: i128)
    requires
        n > 0,
    ensures
        q == (a as int) / (n as int),
{
    proof {
        let q = (a as int) / (n as int);
        let r = (a as int) % (n as int);
        lemma_fundamental_div_mod(a as int, n as int);
        assert(i128::MIN <= q <= i128::MAX) by (nonlinear_arith)
            requires
                i128::MIN <= a <= i128::MAX,
                n >= 1,
                a == n * q + r,
                0 <= r < n,
        ;
    }
    match a.checked_div_euclid(n) {
        Some(q) => q,
        None => 0,
    }
}

/// Splits the exact product `a * b` at the binary point: `hi` is the
/// rounded-down fixed-point product, `lo` what the rounding drops.
fn mul_parts(a: u128, b: u128) -> (parts: (u128, u128))
    requires
        a <= OPERAND_MAX,
        b <= OPERAND_MAX,
    ensures
        a * b == parts.0 * ONE + parts.1,
        parts.1 < ONE,
        parts.0 <= 0x1_0000_0000_0000_0000_0000_0000_0000,
{
    let a1: u128 = a / UNIT;
    let a0: u128 = a % UNIT;
    let b1: u128 = b / UNIT;
    let b0: u128 = b % UNIT;
    proof {
        lemma_fundamental_div_mod(a as int, UNIT as int);
        lemma_fundamental_div_mod(b as int, UNIT as int);
        lemma_mul_upper_bound(a1 as int, 0x1_0000_0000, b as int, OPERAND_MAX as int);
        lemma_mul_upper_bound(a0 as int, UNIT as int, b1 as int, 0x1_0000_0000);
        lemma_mul_upper_bound(a0 as int, UNIT as int, b0 as int, UNIT as int);
    }
    let low: u128 = a0 * b0;
    let carry: u128 = low / UNIT;
    let lo: u128 = low % UNIT;
    let hi: u128 = a1 * b + a0 * b1 + carry;
    proof {
        lemma_fundamental_div_mod(low as int, UNIT as int);
        assert(a * b == (a1 * b + a0 * b1 + carry) * UNIT + lo) by (nonlinear_arith)
            requires
                a == UNIT * a1 + a0,
                b == UNIT * b1 + b0,
                low == a0 * b0,
                low == UNIT * carry + lo,
        ;
        lemma_mul_upper_bound(a as int, OPERAND_MAX as int, b as int, OPERAND_MAX as int);
        assert(hi <= 0x1_0000_0000_0000_0000_0000_0000_0000) by (nonlinear_arith)
            requires
                a * b == hi * UNIT + lo,
                0 <= lo,
                a * b <= OPERAND_MAX * OPERAND_MAX,
                UNIT == 0x1_0000_0000_0000,
                OPERAND_MAX == 0x1_0000_0000_0000_0000_0000,
        ;
    }
    (hi, lo)
}

/// Fixed-point product of two non-negative numbers, rounded down.
pub fn mul_floor(a: u128, b: u128) -> (product: u128)
    requires
        a <= OPERAND_MAX,
        b <= OPERAND_MAX,
    ensures
        product == mul_fixed(a as int, b as int),
        product <= 0x1_0000_0000_0000_0000_0000_0000_0000,
{
    let parts: (u128, u128) = mul_parts(a, b);
    proof {
        lemma_fundamental_div_mod_converse(
            a as int * b as int,
            ONE as int,
            parts.0 as int,
            parts.1 as int,
        );
    }
    parts.0
}

/// Fixed-point quotient `num / den` of two non-negative numbers, rounded
/// down, by binary long division.
pub fn ratio(num: u128, den: u128) -> (quotient: u128)
    requires
        0 < den <= DIVISOR_MAX,
        num <= QUOTIENT_MAX * den,
    ensures
        quotient == div_fixed(num as int, den as int),
        quotient <= QUOTIENT_MAX * ONE,
{
    let mut q: u128 = num / den;
    let mut r: u128 = num % den;
    let mut i: u32 = 0;
    proof {
        lemma_fundamental_div_mod(num as int, den as int);
        lemma_div_is_ordered(num as int, QUOTIENT_MAX * den, den as int);
        lemma_fundamental_div_mod_converse(QUOTIENT_MAX * den, den as int, QUOTIENT_MAX as int, 0);
        assert(pow2(0) == 1) by {
            lemma2_to64_rest();
            vstd::arithmetic::power2::lemma2_to64();
        }
    }
    while i < 48
        invariant
            i <= 48,
            0 < den <= DIVISOR_MAX,
            r < den,
            q * den + r == num * pow2(i as nat),
            q <= QUOTIENT_MAX * pow2(i as nat) + pow2(i as nat) - 1,
        decreases 48 - i,
    {
        proof {
            lemma_pow2_unfold((i + 1) as nat);
            lemma2_to64_rest();
            vstd::arithmetic::power2::lemma_pow2_strictly_increases(i as nat, 49);
            assert(pow2(49) == 0x2000000000000);
        }
        let ghost q0 = q;
        let ghost r0 = r;
        let twice: u128 = 2 * r;
        if twice >= den {
            q = 2 * q + 1;
            r = twice - den;
        } else {
            q = 2 * q;
            r = twice;
        }
        proof {
            assert(q * den + r == 2 * (q0 * den + r0)) by (nonlinear_arith)
                requires
                    (q == 2 * q0 + 1 && r == twice - den) || (q == 2 * q0 && r == twice),
                    twice == 2 * r0,
            ;
            assert(num * pow2((i + 1) as nat) == 2 * (num * pow2(i as nat))) by (nonlinear_arith)
                requires
                    pow2((i + 1) as nat) == 2 * pow2(i as nat),
            ;
        }
        i = i + 1;
    }
    proof {
        lemma2_to64_rest();
        lemma_fundamental_div_mod_converse(num as int * ONE as int, den as int, q as int, r as int);
        assert(q <= QUOTIENT_MAX * ONE) by (nonlinear_arith)
            requires
                q * den + r == num * ONE,
                0 <= r,
                0 < den,
                num <= QUOTIENT_MAX * den,
                ONE > 0,
        ;
    }
    q
}

/// Fixed-point square root of a non-negative number, rounded down, by
/// bisection on the exact square.
pub fn sqrt_floor(v: u128) -> (root: u128)
    requires
        v <= RADICAND_MAX,
    ensures
        is_sqrt_fixed(v as int, root as int),
        root == sqrt_fixed(v as int),
        root < OPERAND_MAX,
{
    let mut lo: u128 = 0;
    let mut hi: u128 = OPERAND_MAX;
    proof {
        assert(v * ONE < OPERAND_MAX * OPERAND_MAX) by (nonlinear_arith)
            requires
                v <= RADICAND_MAX,
                ONE == 0x1_0000_0000_0000,
                OPERAND_MAX == 0x1_0000_0000_0000_0000_0000,
                RADICAND_MAX == 0x4000_0000_0000_0000_0000_0000_0000,
        ;
        assert(0 <= v * ONE) by (nonlinear_arith)
            requires
                0 <= v,
                ONE > 0,
        ;
    }
    while hi - lo > 1
        invariant
            lo < hi <= OPERAND_MAX,
            v <= RADICAND_MAX,
            lo * lo <= v * ONE,
            v * ONE < hi * hi,
        decreases hi - lo,
    {
        let mid: u128 = lo + (hi - lo) / 2;
        let parts: (u128, u128) = mul_parts(mid, mid);
        let fits: bool = parts.0 < v || (parts.0 == v && parts.1 == 0);
        proof {
            assert(fits <==> mid * mid <= v * ONE) by (nonlinear_arith)
                requires
                    mid * mid == parts.0 * ONE + parts.1,
                    0 <= parts.1 < ONE,
                    fits <==> (parts.0 < v || (parts.0 == v && parts.1 == 0)),
            ;
        }
        if fits {
            lo = mid;
        } else {
            hi = mid;
        }
    }
    proof {
        assert(is_sqrt_fixed(v as int, lo as int));
        lemma_sqrt_fixed_unique(v as int, lo as int, sqrt_fixed(v as int));
    }
    lo
}

/// The magnitude of a price.
pub fn magnitude(x: Price) -> (m: u128)
    requires
        x > i128::MIN,
    ensures
        m == (if x < 0 { -x } else { x as int }),
{
    if x < 0 {
        (-x) as u128
    } else {
        x as u128
    }
}

} // verus!
