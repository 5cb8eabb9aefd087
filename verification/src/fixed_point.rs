//! Fixed-point conversion between raw on-chain integer amounts and decimal
//! values in micro units.
//!
//! A decimal value is stored as an integer count of micros: `MICRO` micros
//! make one unit, so `1.5` is `1_500_000`. A raw on-chain amount carries its
//! own precision `decimals`, meaning the amount divided by `10^decimals` is
//! the value in units.
//!
//! `to_decimal` truncates whatever lies below one micro; `from_decimal`
//! rounds to the nearest raw step, half away from zero, and rejects negative
//! input with a `DomainError`. For target precisions of at least six
//! decimals the two compose exactly; `lemma_round_trip` states when the
//! round trip returns its input unchanged.

use vstd::prelude::*;
use vstd::arithmetic::div_mod::{
    lemma_div_is_ordered_by_denominator, lemma_div_multiples_vanish,
    lemma_div_multiples_vanish_fancy, lemma_div_pos_is_pos, lemma_fundamental_div_mod,
    lemma_hoist_over_denominator, lemma_mod_division_less_than_divisor,
};
use vstd::arithmetic::mul::{lemma_mul_is_associative, lemma_mul_nonnegative};

use crate::errors::DomainError;

verus! {

/// Number of micros in one unit of value.
pub const MICRO: u128 = 1_000_000;

/// Largest raw precision the converter accepts, mirroring the widest
/// power of ten that fits the arithmetic.
pub const MAX_DECIMALS: u8 = 19;

/// Ten to the power `n`.
pub open spec fn pow10(n: nat) -> int
    decreases n,
{
    if n == 0 {
        1
    } else {
        10 * pow10((n - 1) as nat)
    }
}

/// Division of `num` by `den`, rounded to the nearest integer with halves
/// rounded up; intended for `num >= 0` and `den > 0`.
pub open spec fn round_div(num: int, den: int) -> int
    recommends
        num >= 0,
        den > 0,
{
    (num + den / 2) / den
}

/// The value, in micros, of a raw amount at `decimals` precision; the part
/// below one micro is truncated.
pub open spec fn to_decimal_spec(raw: int, decimals: nat) -> int {
    (raw * MICRO) / pow10(decimals)
}

/// The raw amount, at `decimals` precision, nearest to a value in micros.
pub open spec fn from_decimal_spec(value: int, decimals: nat) -> int {
    round_div(value * pow10(decimals), MICRO as int)
}

pub proof fn lemma_pow10_pos(n: nat)
    ensures
        pow10(n) >= 1,
    decreases n,
{
    if n > 0 {
        lemma_pow10_pos((n - 1) as nat);
    }
}

pub proof fn lemma_pow10_adds(a: nat, b: nat)
    ensures
        pow10(a + b) == pow10(a) * pow10(b),
    decreases a,
{
    if a == 0 {
    } else {
        lemma_pow10_adds((a - 1) as nat, b);
        lemma_mul_is_associative(10, pow10((a - 1) as nat), pow10(b));
    }
}

pub proof fn lemma_pow10_values()
    ensures
        pow10(6) == MICRO,
        pow10(19) == 10_000_000_000_000_000_000,
        pow10(38) == 100_000_000_000_000_000_000_000_000_000_000_000_000,
{
    reveal_with_fuel(pow10, 39);
}

/// Ten to the power `n`, as a machine integer.
pub fn pow10_u128(n: u8) -> (r: u128)
    requires
        n <= 38,
    ensures
        r as int == pow10(n as nat),
{
    proof {
        lemma_pow10_values();
    }
    let mut r: u128 = 1;
    let mut i: u8 = 0;
    while i < n
        invariant
            i <= n <= 38,
            r as int == pow10(i as nat),
            pow10(38) == 100_000_000_000_000_000_000_000_000_000_000_000_000,
        decreases n - i,
    {
        proof {
            lemma_pow10_increases(i as nat, 37);
        }
        r = r * 10;
        i = i + 1;
    }
    r
}

pub proof fn lemma_pow10_increases(a: nat, b: nat)
    requires
        a <= b,
    ensures
        pow10(a) <= pow10(b),
    decreases b,
{
    if a < b {
        lemma_pow10_increases(a, (b - 1) as nat);
        lemma_pow10_pos((b - 1) as nat);
    }
}

/// The value of a raw amount splits into its whole raw steps, scaled to
/// micros, plus the scaled remainder; both parts are non-negative.
proof fn lemma_to_decimal_parts(raw: int, decimals: nat)
    requires
        raw >= 0,
    ensures
        to_decimal_spec(raw, decimals) == (raw / pow10(decimals)) * MICRO + (raw % pow10(
            decimals,
        )) * MICRO / pow10(decimals),
        (raw / pow10(decimals)) * MICRO >= 0,
        (raw % pow10(decimals)) * MICRO / pow10(decimals) >= 0,
{
    let p = pow10(decimals);
    lemma_pow10_pos(decimals);
    let q = raw / p;
    let r = raw % p;
    lemma_fundamental_div_mod(raw, p);
    lemma_mod_division_less_than_divisor(raw, p);
    assert(raw == p * q + r);
    assert((p * q + r) * (MICRO as int) == (p * q) * (MICRO as int) + r * (MICRO as int));
    assert((p * q) * (MICRO as int) == (q * (MICRO as int)) * p) by (nonlinear_arith);
    lemma_hoist_over_denominator(r * (MICRO as int), q * (MICRO as int), p as nat);
    lemma_div_pos_is_pos(raw, p);
    lemma_mul_nonnegative(q, MICRO as int);
    lemma_mul_nonnegative(r, MICRO as int);
    lemma_div_pos_is_pos(r * (MICRO as int), p);
}

/// At six or more decimals the converted value never exceeds the raw
/// amount; below six it is the raw amount scaled up exactly.
proof fn lemma_to_decimal_bound(raw: int, decimals: nat)
    requires
        raw >= 0,
    ensures
        decimals >= 6 ==> 0 <= to_decimal_spec(raw, decimals) <= raw,
        decimals < 6 ==> to_decimal_spec(raw, decimals) == raw * pow10((6 - decimals) as nat),
{
    let p = pow10(decimals);
    lemma_pow10_pos(decimals);
    lemma_pow10_values();
    lemma_mul_nonnegative(raw, MICRO as int);
    lemma_div_pos_is_pos(raw * (MICRO as int), p);
    if decimals >= 6 {
        lemma_pow10_increases(6, decimals);
        lemma_div_is_ordered_by_denominator(raw * (MICRO as int), MICRO as int, p);
        lemma_div_multiples_vanish(raw, MICRO as int);
        assert((MICRO as int) * raw == raw * (MICRO as int));
    } else {
        let e = (6 - decimals) as nat;
        lemma_pow10_adds(decimals, e);
        assert(MICRO as int == p * pow10(e));
        assert(raw * (p * pow10(e)) == (raw * pow10(e)) * p) by (nonlinear_arith);
        lemma_div_multiples_vanish(raw * pow10(e), p);
        assert(p * (raw * pow10(e)) == (raw * pow10(e)) * p);
    }
}

/// Converts a raw on-chain amount at `decimals` precision into a value in
/// micros, truncating below one micro. Every `u128` amount is accepted when
/// the result fits, which at six or more decimals is always.
pub fn to_decimal(raw: u128, decimals: u8) -> (res: u128)
    requires
        decimals <= MAX_DECIMALS,
        decimals < 6 ==> raw as int * pow10((6 - decimals) as nat) <= u128::MAX as int,
    ensures
        res as int == to_decimal_spec(raw as int, decimals as nat),
{
    let p = pow10_u128(decimals);
    proof {
        lemma_pow10_pos(decimals as nat);
        lemma_pow10_values();
        lemma_pow10_increases(decimals as nat, 19);
        lemma_to_decimal_parts(raw as int, decimals as nat);
        lemma_to_decimal_bound(raw as int, decimals as nat);
        lemma_mod_division_less_than_divisor(raw as int, p as int);
    }
    let q = raw / p;
    let r = raw % p;
    q * MICRO + r * MICRO / p
}

/// Converts a value in micros into the nearest raw on-chain amount at
/// `decimals` precision, half away from zero; a negative value is a
/// `DomainError`.
pub fn from_decimal(value: i128, decimals: u8) -> (r: Result<u128, DomainError>)
    requires
        decimals <= MAX_DECIMALS,
        value as int * pow10(decimals as nat) + 500_000 <= u128::MAX as int,
    ensures
        value < 0 <==> r is Err,
        value < 0 ==> r == Err::<u128, DomainError>(DomainError::NegativeValue),
        value >= 0 ==> (r matches Ok(raw) && raw as int == from_decimal_spec(
            value as int,
            decimals as nat,
        )),
{
    if value < 0 {
        Err(DomainError::NegativeValue)
    } else {
        let v = value as u128;
        let mul = pow10_u128(decimals);
        proof {
            lemma_pow10_pos(decimals as nat);
        }
        Ok((v * mul + MICRO / 2) / MICRO)
    }
}

/// Round-trip law: converting a non-negative value to a raw amount at
/// `decimals` precision and back returns the value unchanged, provided the
/// precision can represent it: any value when `decimals >= 6`, and a value
/// that is a whole multiple of `10^(6 - decimals)` micros when
/// `decimals < 6`.
pub proof fn lemma_round_trip(value: int, decimals: nat)
    requires
        value >= 0,
        decimals < 6 ==> value % pow10((6 - decimals) as nat) == 0,
    ensures
        to_decimal_spec(from_decimal_spec(value, decimals), decimals) == value,
{
    lemma_pow10_values();
    lemma_pow10_pos(decimals);
    let p = pow10(decimals);
    if decimals >= 6 {
        let pr = pow10((decimals - 6) as nat);
        lemma_pow10_pos((decimals - 6) as nat);
        lemma_pow10_adds(6, (decimals - 6) as nat);
        assert(p == MICRO * pr);
        // from_decimal gives exactly value * pow10(decimals - 6)
        assert(value * p == (value * pr) * (MICRO as int)) by {
            lemma_mul_is_associative(value, MICRO as int, pr);
            lemma_mul_is_associative(value, pr, MICRO as int);
        }
        lemma_round_div_exact(value * pr, MICRO as int);
        assert(from_decimal_spec(value, decimals) == value * pr);
        // and converting back divides value * pow10(decimals) by itself
        assert((value * pr) * (MICRO as int) == value * p);
        lemma_mul_is_associative(value, pr, MICRO as int);
        assert(to_decimal_spec(value * pr, decimals) == (value * p) / p);
        lemma_div_multiples_vanish(value, p);
        assert(p * value == value * p);
    } else {
        let e = (6 - decimals) as nat;
        let pe = pow10(e);
        lemma_pow10_pos(e);
        lemma_pow10_adds(decimals, e);
        assert(MICRO as int == p * pe);
        // divisibility gives a whole number of raw steps
        let w = value / pe;
        vstd::arithmetic::div_mod::lemma_fundamental_div_mod(value, pe);
        assert(value == w * pe);
        assert(value * p == w * (MICRO as int)) by {
            lemma_mul_is_associative(w, pe, p);
        }
        lemma_round_div_exact(w, MICRO as int);
        assert(from_decimal_spec(value, decimals) == w);
        assert(w * (MICRO as int) == (w * pe) * p) by {
            lemma_mul_is_associative(w, pe, p);
        }
        assert(to_decimal_spec(w, decimals) == ((w * pe) * p) / p);
        lemma_div_multiples_vanish(w * pe, p);
        assert(p * (w * pe) == (w * pe) * p);
    }
}

/// Dividing an exact multiple of `den` rounds to the exact quotient.
pub proof fn lemma_round_div_exact(k: int, den: int)
    requires
        den > 0,
    ensures
        round_div(k * den, den) == k,
{
    assert(0 <= den / 2 < den);
    lemma_div_multiples_vanish_fancy(k, den / 2, den);
    assert(den * k == k * den);
}

} // verus!
