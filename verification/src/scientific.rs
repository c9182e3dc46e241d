//! Compact scientific notation for file names.
//!
//! A number is written as a mantissa between one and ten with at most three
//! decimals, the letter `d` in place of the decimal point, the letter `e`
//! and the decimal exponent: 9 475 000 becomes `9d475e6`.
//!
//! The mantissa is the IEEE 754 double nearest to the quotient of the number
//! and its power of ten, rounded to three decimals with ties to even. The
//! double differs from the exact quotient by far less than the distance of
//! any quotient to a rounding boundary, so it decides the rounding only where
//! the exact quotient lies on a boundary; there the side on which the double
//! falls is computed from its 53-bit significand.

use vstd::prelude::*;
use vstd::arithmetic::div_mod::*;
use vstd::arithmetic::power2::*;
use crate::text::{append_decimal, decimal, digit, digit_char, push_char};

verus! {

/// Ten to the power of `e`.
pub open spec fn pow10(e: nat) -> nat
    decreases e,
{
    if e == 0 {
        1
    } else {
        10 * pow10((e - 1) as nat)
    }
}

/// The decimal exponent of `n`: the number of its decimal digits, less one.
pub open spec fn exponent(n: nat) -> nat
    decreases n,
{
    if n < 10 {
        0
    } else {
        1 + exponent(n / 10)
    }
}

/// The binary exponent of the quotient `k / 2000`, for a quotient between
/// one and ten.
pub open spec fn binade(k: int) -> nat {
    if k < 4000 {
        0
    } else if k < 8000 {
        1
    } else if k < 16000 {
        2
    } else {
        3
    }
}

/// Where the double nearest to `k / 2000` lies: `1` above the quotient, `-1`
/// below it, `0` on it.
///
/// The significand of that double is `k * 2^(48 - b) / 125` rounded to the
/// nearest integer, `b` being the binary exponent; the remainder of the
/// division tells the direction.
pub open spec fn double_side(k: int) -> int {
    let r = (k * pow2((48 - binade(k)) as nat)) % 125;
    if r == 0 {
        0
    } else if r < 63 {
        -1
    } else {
        1
    }
}

/// The mantissa of `n` in thousandths, between 1000 and 10000.
pub open spec fn thousandths(n: nat) -> nat {
    let p = pow10(exponent(n));
    let t = n * 1000 / p;
    let rest = n * 1000 % p;
    if 2 * rest < p {
        t
    } else if 2 * rest > p {
        t + 1
    } else {
        let side = double_side((2 * t + 1) as int);
        if side < 0 || (side == 0 && t % 2 == 0) {
            t
        } else {
            t + 1
        }
    }
}

/// The three decimals of `f` thousandths without trailing zeros.
pub open spec fn decimals(f: nat) -> Seq<char> {
    if f == 0 {
        seq![]
    } else if f % 100 == 0 {
        seq![digit((f / 100) as int)]
    } else if f % 10 == 0 {
        seq![digit((f / 100) as int), digit((f / 10 % 10) as int)]
    } else {
        seq![digit((f / 100) as int), digit((f / 10 % 10) as int), digit((f % 10) as int)]
    }
}

/// The text of a mantissa of `t` thousandths: the whole part, then `d` and
/// the decimals where there are any.
pub open spec fn mantissa(t: nat) -> Seq<char> {
    if t % 1000 == 0 {
        decimal(t / 1000)
    } else {
        decimal(t / 1000).push('d') + decimals(t % 1000)
    }
}

/// The scientific notation of `n`.
pub open spec fn scientific(n: nat) -> Seq<char> {
    if n == 0 {
        seq!['0', 'e', '0']
    } else {
        mantissa(thousandths(n)).push('e') + decimal(exponent(n))
    }
}

/// The decimal exponent of `n` and the matching power of ten.
fn magnitude(n: u64) -> (r: (u32, u64))
    requires
        1 <= n <= u32::MAX,
    ensures
        r.0 == exponent(n as nat),
        r.1 == pow10(r.0 as nat),
        r.1 <= n < 10 * r.1,
{
    let mut e: u32 = 0;
    let mut p: u64 = 1;
    while n / p >= 10
        invariant
            1 <= p <= n <= u32::MAX,
            p == pow10(e as nat),
            e <= p,
            exponent(n as nat) == e + exponent((n / p) as nat),
        decreases n - p,
    {
        proof {
            lemma_fundamental_div_mod(n as int, p as int);
            assert(p * 10 <= n) by (nonlinear_arith)
                requires
                    n / p >= 10,
                    p >= 1,
                    n == p * (n / p) + (n % p),
                    n % p >= 0,
            ;
            lemma_div_denominator(n as int, p as int, 10);
        }
        p = p * 10;
        e = e + 1;
    }
    proof {
        lemma_fundamental_div_mod(n as int, p as int);
        lemma_mod_bound(n as int, p as int);
        assert(n < 10 * p) by (nonlinear_arith)
            requires
                n / p < 10,
                p >= 1,
                n == p * (n / p) + (n % p),
                n % p < p,
        ;
    }
    (e, p)
}

/// Whether a mantissa that lies exactly between `t` and `t + 1` thousandths
/// is printed as `t + 1`.
fn tie_rounds_up(t: u64) -> (up: bool)
    requires
        1000 <= t < 10000,
    ensures
        up == !(double_side(2 * t + 1) < 0 || (double_side(2 * t + 1) == 0 && t % 2 == 0)),
{
    let k: u64 = 2 * t + 1;
    let scale: u64 = if k < 4000 {
        0x1_0000_0000_0000
    } else if k < 8000 {
        0x8000_0000_0000
    } else if k < 16000 {
        0x4000_0000_0000
    } else {
        0x2000_0000_0000
    };
    proof {
        lemma2_to64_rest();
        assert(scale == pow2((48 - binade(k as int)) as nat));
        assert(k * scale <= 20000 * 0x1_0000_0000_0000) by (nonlinear_arith)
            requires
                k <= 20000,
                scale <= 0x1_0000_0000_0000,
        ;
    }
    let r: u64 = (k * scale) % 125;
    if r == 0 {
        t % 2 != 0
    } else {
        r >= 63
    }
}

/// Writes `num` in scientific notation.
pub fn to_scientific(num: u32) -> (s: String)
    ensures
        s@ == scientific(num as nat),
{
    let mut s = String::new();
    if num == 0 {
        push_char(&mut s, '0');
        push_char(&mut s, 'e');
        push_char(&mut s, '0');
        assert(s@ =~= scientific(0));
        return s;
    }
    let n: u64 = num as u64;
    let (e, p) = magnitude(n);
    let x: u64 = n * 1000;
    let t: u64 = x / p;
    let rest: u64 = x % p;
    assert(1000 <= t < 10000) by (nonlinear_arith)
        requires
            t == x / p,
            x == n * 1000,
            1 <= p <= n < 10 * p,
    ;
    let up: bool = if 2 * rest < p {
        false
    } else if 2 * rest > p {
        true
    } else {
        tie_rounds_up(t)
    };
    let rounded: u64 = if up {
        t + 1
    } else {
        t
    };
    assert(rounded == thousandths(n as nat));
    append_decimal(&mut s, rounded / 1000);
    let f: u64 = rounded % 1000;
    if f != 0 {
        push_char(&mut s, 'd');
        push_char(&mut s, digit_char((f / 100) as u8));
        if f % 100 != 0 {
            push_char(&mut s, digit_char((f / 10 % 10) as u8));
            if f % 10 != 0 {
                push_char(&mut s, digit_char((f % 10) as u8));
            }
        }
    }
    assert(s@ =~= mantissa(rounded as nat));
    push_char(&mut s, 'e');
    append_decimal(&mut s, e as u64);
    s
}

} // verus!
