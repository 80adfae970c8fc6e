//! Integer arithmetic of the language's runtime: wrapping two's complement
//! integers, floor division and modulo, and logical shifts that yield zero
//! once the shift distance reaches the word size.
use vstd::prelude::*;

verus! {

/// The quotient of `a / b` rounded towards negative infinity.
pub open spec fn floor_quotient(a: int, b: int) -> int
    recommends
        b != 0,
{
    // `/` and `%` on `int` are Euclidean: the remainder is never negative.
    if b < 0 && a % b != 0 {
        a / b - 1
    } else {
        a / b
    }
}

/// The remainder that goes with `floor_quotient`: it has the sign of `b`.
pub open spec fn floor_remainder(a: int, b: int) -> int
    recommends
        b != 0,
{
    if b < 0 && a % b != 0 {
        a % b + b
    } else {
        a % b
    }
}

/// Integer floor division on 64-bit integers; the one quotient that does not
/// fit (`i64::MIN / -1`) wraps around to `i64::MIN`.
pub open spec fn idiv_spec(a: i64, b: i64) -> i64
    recommends
        b != 0,
{
    if a == i64::MIN && b == -1 {
        i64::MIN
    } else {
        floor_quotient(a as int, b as int) as i64
    }
}

/// A logical left shift of the 64 bits of `x` by `n`; a negative `n` shifts
/// to the right, and any distance of 64 or more yields zero.
pub open spec fn shl_spec(x: i64, n: i64) -> i64 {
    if n <= -64 || n >= 64 {
        0
    } else if n >= 0 {
        ((x as u64) << (n as u64)) as i64
    } else {
        ((x as u64) >> ((-n) as u64)) as i64
    }
}

/// A logical right shift: a left shift by the wrapped negation of `n`.
pub open spec fn shr_spec(x: i64, n: i64) -> i64 {
    shl_spec(x, (0i64).wrapping_sub(n))
}

proof fn lemma_floor_parts(a: int, b: int)
    requires
        b != 0,
    ensures
        a == b * floor_quotient(a, b) + floor_remainder(a, b),
        b > 0 ==> 0 <= floor_remainder(a, b) < b,
        b < 0 ==> b < floor_remainder(a, b) <= 0,
{
    assert(a == b * (a / b) + a % b) by (nonlinear_arith)
        requires
            b != 0,
    ;
    if b < 0 && a % b != 0 {
        assert(b * (a / b - 1) == b * (a / b) - b) by (nonlinear_arith);
    }
}

proof fn lemma_euclid_quotient_bounds(a: int, b: int)
    requires
        i64::MIN <= a <= i64::MAX,
        b != 0,
        b != -1,
    ensures
        i64::MIN <= a / b <= i64::MAX,
        b < 0 ==> i64::MIN < a / b,
{
    let q: int = a / b;
    let e: int = a % b;
    assert(a == b * q + e) by (nonlinear_arith)
        requires
            b != 0,
            q == a / b,
            e == a % b,
    ;
    if b > 0 {
        assert(0 <= e < b);
        assert(i64::MIN <= q <= i64::MAX) by (nonlinear_arith)
            requires
                a == b * q + e,
                0 <= e < b,
                i64::MIN <= a <= i64::MAX,
        ;
    } else {
        assert(0 <= e < -b);
        assert(i64::MIN < q <= i64::MAX) by (nonlinear_arith)
            requires
                a == b * q + e,
                0 <= e < -b,
                b <= -2,
                i64::MIN <= a <= i64::MAX,
        ;
    }
}

/// The floor division `a // b` of the runtime on two integers.
pub fn floor_div(a: i64, b: i64) -> (r: i64)
    requires
        b != 0,
    ensures
        r == idiv_spec(a, b),
{
    if b == -1 {
        proof {
            assert(floor_quotient(a as int, -1) == -(a as int)) by {
                lemma_floor_parts(a as int, -1);
            }
        }
        (0i64).wrapping_sub(a)
    } else {
        proof {
            lemma_euclid_quotient_bounds(a as int, b as int);
        }
        let q: i64 = a.checked_div_euclid(b).unwrap();
        let m: i64 = a.checked_rem_euclid(b).unwrap();
        proof {
            lemma_floor_parts(a as int, b as int);
        }
        if b < 0 && m != 0 {
            q - 1
        } else {
            q
        }
    }
}

/// The floor modulo `a % b` of the runtime on two integers.
pub fn floor_mod(a: i64, b: i64) -> (r: i64)
    requires
        b != 0,
    ensures
        r == floor_remainder(a as int, b as int),
{
    proof {
        lemma_floor_parts(a as int, b as int);
    }
    if b == -1 {
        0
    } else {
        let m: i64 = a.checked_rem_euclid(b).unwrap();
        if b < 0 && m != 0 {
            m + b
        } else {
            m
        }
    }
}

/// The runtime's `<<` on two integers.
pub fn shift_left(x: i64, n: i64) -> (r: i64)
    ensures
        r == shl_spec(x, n),
{
    if n <= -64 || n >= 64 {
        0
    } else if n >= 0 {
        #[verifier::truncate]
        let bits: u64 = x as u64;
        let shifted: u64 = bits << (n as u64);
        #[verifier::truncate]
        let r: i64 = shifted as i64;
        r
    } else {
        #[verifier::truncate]
        let bits: u64 = x as u64;
        let shifted: u64 = bits >> ((-n) as u64);
        #[verifier::truncate]
        let r: i64 = shifted as i64;
        r
    }
}

/// The runtime's `>>` on two integers.
pub fn shift_right(x: i64, n: i64) -> (r: i64)
    ensures
        r == shr_spec(x, n),
{
    shift_left(x, (0i64).wrapping_sub(n))
}

} // verus!
