use vstd::arithmetic::div_mod::{lemma_div_nonincreasing, lemma_fundamental_div_mod};
use vstd::arithmetic::mul::lemma_mul_upper_bound;
use vstd::prelude::*;

use crate::errors::ErrorCode;

verus! {

/// Largest admissible precision exponent: `10^MAX_DECIMALS` must fit a
/// 64-bit amount, and a pool's decimals offset never exceeds it.
pub const MAX_DECIMALS: u8 = 18;

/// Rounding direction of a fixed-point multiply-then-divide. `Floor` rounds
/// the exact rational quotient down, `Ceiling` rounds it up.
#[derive(Clone, Copy, Debug, PartialEq, Eq, Structural)]
pub enum Rounding {
    Floor,
    Ceiling,
}

/// `10^n` over unbounded naturals.
pub open spec fn pow10(n: nat) -> nat
    decreases n,
{
    if n == 0 {
        1nat
    } else {
        10 * pow10((n - 1) as nat)
    }
}

/// Exact value of `a*b/c` under the given rounding, over unbounded naturals.
pub open spec fn mul_div_spec(a: nat, b: nat, c: nat, rounding: Rounding) -> nat
    recommends
        c > 0,
{
    match rounding {
        Rounding::Floor => a * b / c,
        Rounding::Ceiling => if (a * b) % c == 0 {
            a * b / c
        } else {
            a * b / c + 1
        },
    }
}

/// Every power of ten is positive.
pub proof fn lemma_pow10_pos(n: nat)
    ensures
        pow10(n) >= 1,
    decreases n,
{
    if n > 0 {
        lemma_pow10_pos((n - 1) as nat);
    }
}

/// Powers of ten grow with the exponent.
pub proof fn lemma_pow10_increases(i: nat, j: nat)
    requires
        i <= j,
    ensures
        pow10(i) <= pow10(j),
    decreases j,
{
    if i < j {
        lemma_pow10_increases(i, (j - 1) as nat);
        lemma_pow10_pos((j - 1) as nat);
    }
}

/// `10^MAX_DECIMALS` written out, so that callers can bound powers of ten
/// by a 64-bit constant.
pub proof fn lemma_pow10_max_decimals()
    ensures
        pow10(MAX_DECIMALS as nat) == 1_000_000_000_000_000_000,
{
    reveal_with_fuel(pow10, 19);
}

/// `10^n` for `n` up to [`MAX_DECIMALS`], in the native width.
pub fn pow10_u64(n: u8) -> (r: u64)
    requires
        n <= MAX_DECIMALS,
    ensures
        r == pow10(n as nat),
{
    proof {
        lemma_pow10_max_decimals();
    }
    let mut r: u64 = 1;
    let mut i: u8 = 0;
    while i < n
        invariant
            i <= n,
            n <= MAX_DECIMALS,
            r == pow10(i as nat),
            pow10(MAX_DECIMALS as nat) == 1_000_000_000_000_000_000,
        decreases n - i,
    {
        proof {
            lemma_pow10_increases((i + 1) as nat, MAX_DECIMALS as nat);
        }
        r = r * 10;
        i = i + 1;
    }
    r
}

/// Computes `a*b/c` exactly in a widened 128-bit domain, rounding in the
/// given direction, and narrows the result back to 64 bits.
///
/// Fails with `ArithmeticOverflow` exactly when the divisor is zero or the
/// rounded quotient does not fit 64 bits; on success the result is the exact
/// rounded quotient.
pub fn mul_div(a: u64, b: u64, c: u64, rounding: Rounding) -> (r: Result<u64, ErrorCode>)
    ensures
        r is Ok <==> c != 0 && mul_div_spec(a as nat, b as nat, c as nat, rounding) <= u64::MAX,
        r matches Ok(v) ==> v == mul_div_spec(a as nat, b as nat, c as nat, rounding),
        r matches Err(e) ==> e == ErrorCode::ArithmeticOverflow,
{
    if c == 0 {
        return Err(ErrorCode::ArithmeticOverflow);
    }
    proof {
        lemma_mul_upper_bound(a as int, u64::MAX as int, b as int, u64::MAX as int);
    }
    let prod: u128 = (a as u128) * (b as u128);
    let quot: u128 = prod / (c as u128);
    let rem: u128 = prod % (c as u128);
    proof {
        lemma_div_nonincreasing(prod as int, c as int);
    }
    let rounded: u128 = match rounding {
        Rounding::Floor => quot,
        Rounding::Ceiling => if rem != 0 {
            quot + 1
        } else {
            quot
        },
    };
    if rounded > u64::MAX as u128 {
        Err(ErrorCode::ArithmeticOverflow)
    } else {
        Ok(rounded as u64)
    }
}

} // verus!
