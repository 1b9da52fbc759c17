use vstd::prelude::*;
use crate::utils::conventions::UNIT;

verus! {

/// Absolute value of a mathematical integer.
pub open spec fn abs(x: int) -> int {
    if x < 0 {
        -x
    } else {
        x
    }
}

/// Sign of a mathematical integer: `-1`, `0` or `1`.
pub open spec fn signum(x: int) -> int {
    if x < 0 {
        -1
    } else if x == 0 {
        0
    } else {
        1
    }
}

/// The change `v` of a coordinate, counted in the sense of `d`: `v` itself
/// where `d` is positive, its negation where `d` is negative, and nothing
/// where `d` is zero.
pub open spec fn along(v: int, d: int) -> int {
    if d > 0 {
        v
    } else if d < 0 {
        -v
    } else {
        0
    }
}

/// Quotient of `n` by a positive `d`, rounded toward zero.
pub open spec fn trunc_div(n: int, d: int) -> int {
    if n >= 0 {
        n / d
    } else {
        -((-n) / d)
    }
}

/// The fractional part of the magnitude of a fixed-point number, in subunits.
pub open spec fn get_decimal(f: int) -> int {
    abs(f) % (UNIT as int)
}

/// Whether a fixed-point number is a whole number of tiles.
pub open spec fn is_integer(f: int) -> bool {
    get_decimal(f) == 0
}

/// `r` is the square root of `n`, rounded down.
pub open spec fn is_floor_sqrt(r: int, n: int) -> bool {
    0 <= r && r * r <= n < (r + 1) * (r + 1)
}

/// The square root of `n`, rounded down.
pub open spec fn floor_sqrt(n: int) -> int {
    choose|r: int| is_floor_sqrt(r, n)
}

/// A number that is the rounded-down square root of `n` is `floor_sqrt(n)`.
pub proof fn lemma_floor_sqrt(r: int, n: int)
    requires
        is_floor_sqrt(r, n),
    ensures
        floor_sqrt(n) == r,
{
    lemma_floor_sqrt_unique(r, floor_sqrt(n), n);
}

/// At most one number is the rounded-down square root of `n`.
pub proof fn lemma_floor_sqrt_unique(r1: int, r2: int, n: int)
    requires
        is_floor_sqrt(r1, n),
        is_floor_sqrt(r2, n),
    ensures
        r1 == r2,
{
    if r1 < r2 {
        assert((r1 + 1) * (r1 + 1) <= r2 * r2) by (nonlinear_arith)
            requires
                0 <= r1,
                r1 + 1 <= r2,
        ;
    } else if r2 < r1 {
        assert((r2 + 1) * (r2 + 1) <= r1 * r1) by (nonlinear_arith)
            requires
                0 <= r2,
                r2 + 1 <= r1,
        ;
    }
}

/// Every number that is not negative has a rounded-down square root.
pub proof fn lemma_floor_sqrt_exists(n: int)
    requires
        0 <= n,
    ensures
        is_floor_sqrt(floor_sqrt(n), n),
    decreases n,
{
    if n == 0 {
        assert(is_floor_sqrt(0, n));
    } else {
        lemma_floor_sqrt_exists(n - 1);
        let r = floor_sqrt(n - 1);
        if (r + 1) * (r + 1) <= n {
            assert(n < (r + 2) * (r + 2)) by (nonlinear_arith)
                requires
                    0 <= r,
                    n - 1 < (r + 1) * (r + 1),
            ;
            assert(is_floor_sqrt(r + 1, n));
        } else {
            assert(is_floor_sqrt(r, n));
        }
    }
}

/// A greater number has a greater or equal rounded-down square root.
pub proof fn lemma_floor_sqrt_grows(a: int, b: int)
    requires
        0 <= a <= b,
    ensures
        floor_sqrt(a) <= floor_sqrt(b),
{
    lemma_floor_sqrt_exists(a);
    lemma_floor_sqrt_exists(b);
    let ra = floor_sqrt(a);
    let rb = floor_sqrt(b);
    assert(ra <= rb) by (nonlinear_arith)
        requires
            0 <= ra,
            0 <= rb,
            ra * ra <= a,
            a <= b,
            b < (rb + 1) * (rb + 1),
    ;
}

/// The quotient of a negative number by a positive one, rounded toward zero,
/// is one more than the rounded-down quotient unless the division is exact.
pub proof fn lemma_floor_of_negative(n: int, d: int)
    requires
        n < 0,
        d > 0,
    ensures
        n / d == if (-n) % d == 0 {
            -((-n) / d)
        } else {
            -((-n) / d) - 1
        },
{
    let q = (-n) / d;
    let r = (-n) % d;
    vstd::arithmetic::div_mod::lemma_fundamental_div_mod(-n, d);
    if r == 0 {
        assert(n == d * (-q) + 0) by (nonlinear_arith)
            requires
                -n == d * q + r,
                r == 0,
        ;
        vstd::arithmetic::div_mod::lemma_fundamental_div_mod_converse(n, d, -q, 0);
    } else {
        assert(n == d * (-q - 1) + (d - r)) by (nonlinear_arith)
            requires
                -n == d * q + r,
        ;
        vstd::arithmetic::div_mod::lemma_fundamental_div_mod_converse(n, d, -q - 1, d - r);
    }
}

/// Magnitude of a fixed-point number.
pub fn Abs(x: i64) -> (r: i64)
    requires
        x > i64::MIN,
    ensures
        r == abs(x as int),
{
    if x < 0 {
        -x
    } else {
        x
    }
}

/// The change `v` of a coordinate, counted in the sense of `d`.
pub fn Along(v: i64, d: i64) -> (r: i64)
    requires
        v > i64::MIN,
    ensures
        r == along(v as int, d as int),
{
    if d > 0 {
        v
    } else if d < 0 {
        -v
    } else {
        0
    }
}

/// Rounded-down quotient for a numerator whose negation fits.
fn floor_div_negatable(n: i64, d: i64) -> (q: i64)
    requires
        d > 0,
        n > i64::MIN,
    ensures
        q == (n as int) / (d as int),
{
    if n >= 0 {
        n / d
    } else {
        let p: i64 = -n;
        proof {
            lemma_floor_of_negative(n as int, d as int);
        }
        if p % d == 0 {
            -(p / d)
        } else {
            -(p / d) - 1
        }
    }
}

/// Quotient of `n` by a positive `d`, rounded down (toward negative infinity).
pub fn FloorDiv(n: i64, d: i64) -> (q: i64)
    requires
        d > 0,
    ensures
        q == (n as int) / (d as int),
{
    if n == i64::MIN {
        // -n does not fit: split off one multiple of d first.
        proof {
            vstd::arithmetic::div_mod::lemma_div_plus_one(n as int, d as int);
        }
        let q: i64 = floor_div_negatable(n + d, d);
        q - 1
    } else {
        floor_div_negatable(n, d)
    }
}

/// Quotient of a wide `n` by a positive `d`, rounded down.
pub fn FloorDivWide(n: i128, d: i128) -> (q: i128)
    requires
        d > 0,
        n > i128::MIN,
    ensures
        q == (n as int) / (d as int),
{
    if n >= 0 {
        n / d
    } else {
        let p: i128 = -n;
        proof {
            lemma_floor_of_negative(n as int, d as int);
        }
        if p % d == 0 {
            -(p / d)
        } else {
            -(p / d) - 1
        }
    }
}

/// `v` held within the range from `lo` to `hi`.
pub open spec fn clamp(v: int, lo: int, hi: int) -> int {
    if v < lo {
        lo
    } else if v > hi {
        hi
    } else {
        v
    }
}

/// The fractional part of the magnitude of a fixed-point number: what is
/// left of `|f|` once the whole tiles are taken away.
pub fn GetDecimal(f: i64) -> (r: i64)
    ensures
        r == get_decimal(f as int),
        0 <= r < UNIT,
{
    if f == i64::MIN {
        0
    } else {
        let a: i64 = Abs(f);
        a % UNIT
    }
}

/// Whether a fixed-point number has no fractional part.
pub fn IsInteger(f: i64) -> (b: bool)
    ensures
        b == is_integer(f as int),
{
    GetDecimal(f) == 0
}

/// Square root of `n`, rounded down.
pub fn FloorSqrt(n: u64) -> (r: u64)
    ensures
        r == floor_sqrt(n as int),
        is_floor_sqrt(r as int, n as int),
        r < 0x1_0000_0000,
{
    let r: u128 = FloorSqrtWide(n as u128);
    assert(r < 0x1_0000_0000) by (nonlinear_arith)
        requires
            r * r <= n,
            n <= u64::MAX,
    ;
    r as u64
}

/// Square root of a wide `n`, rounded down.
pub fn FloorSqrtWide(n: u128) -> (r: u128)
    requires
        n < 0x4000_0000_0000_0000_0000_0000_0000_0000,
    ensures
        r == floor_sqrt(n as int),
        is_floor_sqrt(r as int, n as int),
        r < 0x8000_0000_0000_0000,
{
    let mut lo: u128 = 0;
    let mut hi: u128 = 0x8000_0000_0000_0000;
    while hi - lo > 1
        invariant
            lo < hi <= 0x8000_0000_0000_0000,
            lo * lo <= n,
            n < hi * hi,
        decreases hi - lo,
    {
        let mid: u128 = lo + (hi - lo) / 2;
        assert(mid * mid < 0x8000_0000_0000_0000 * 0x8000_0000_0000_0000) by (nonlinear_arith)
            requires
                0 <= mid < 0x8000_0000_0000_0000,
        ;
        if mid * mid <= n {
            lo = mid;
        } else {
            hi = mid;
        }
    }
    proof {
        lemma_floor_sqrt(lo as int, n as int);
    }
    lo
}

} // verus!
