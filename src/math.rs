//! Fixed-point and wide-integer arithmetic.
//!
//! `Decimal18` is an 18-digit fixed-point number held as its atomic units.
//! `Wide` is an unsigned 256-bit integer held as 32 big-endian bytes. The
//! rounding rules are those of cosmwasm's `Uint128`, `Uint256`, `Decimal18` and
//! `Decimal256`, which do the arithmetic behind the trusted wrappers below.
use cosmwasm_std::{Uint128, Uint256};
use vstd::arithmetic::div_mod::{lemma_div_is_ordered, lemma_div_multiples_vanish};
use vstd::arithmetic::mul::lemma_mul_inequality;
use vstd::prelude::*;

verus! {

/// The number of atomic units in one whole `Decimal18`.
pub const DECIMAL_FRACTIONAL: u128 = 1_000_000_000_000_000_000;

/// `10^18` as a mathematical integer.
pub open spec fn e18() -> int {
    1_000_000_000_000_000_000
}

/// The largest value a `Wide` can hold, `2^256 - 1`.
pub open spec fn wide_max() -> int {
    (u128::MAX as int + 1) * (u128::MAX as int + 1) - 1
}

/// `a * num / den`, rounded down.
pub open spec fn mul_ratio(a: int, num: int, den: int) -> int {
    (a * num) / den
}

/// An 18-digit fixed-point number: the value is `atomics / 10^18`.
#[derive(Clone, Copy, Debug, PartialEq, Eq, Structural)]
pub struct Decimal18 {
    pub atomics: u128,
}

impl Decimal18 {
    pub fn zero() -> (r: Decimal18)
        ensures
            r.atomics == 0,
    {
        Decimal18 { atomics: 0 }
    }

    pub fn one() -> (r: Decimal18)
        ensures
            r.atomics == DECIMAL_FRACTIONAL,
    {
        Decimal18 { atomics: DECIMAL_FRACTIONAL }
    }

    /// A decimal from its atomic units.
    pub fn raw(atomics: u128) -> (r: Decimal18)
        ensures
            r.atomics == atomics,
    {
        Decimal18 { atomics }
    }

    /// `x` percent.
    pub fn percent(x: u64) -> (r: Decimal18)
        ensures
            r.atomics == x as int * 10_000_000_000_000_000,
    {
        Decimal18 { atomics: x as u128 * 10_000_000_000_000_000 }
    }

    /// `x` thousandths.
    pub fn permille(x: u64) -> (r: Decimal18)
        ensures
            r.atomics == x as int * 1_000_000_000_000_000,
    {
        Decimal18 { atomics: x as u128 * 1_000_000_000_000_000 }
    }

    /// `numerator / denominator`, rounded down to 18 digits; `None` when the
    /// denominator is zero or the ratio does not fit.
    pub fn checked_from_ratio(numerator: u128, denominator: u128) -> (r: Option<Decimal18>)
        ensures
            r is Some <==> denominator != 0 && mul_ratio(numerator as int, e18(), denominator as int) <= u128::MAX,
            r matches Some(d) ==> d.atomics == mul_ratio(numerator as int, e18(), denominator as int),
    {
        match u128_mul_ratio(numerator, DECIMAL_FRACTIONAL, denominator) {
            Some(a) => Some(Decimal18 { atomics: a }),
            None => None,
        }
    }

    /// `self / other`, rounded down to 18 digits; `None` when `other` is zero
    /// or the quotient does not fit.
    pub fn checked_div(self, other: Decimal18) -> (r: Option<Decimal18>)
        ensures
            r is Some <==> other.atomics != 0 && mul_ratio(self.atomics as int, e18(), other.atomics as int) <= u128::MAX,
            r matches Some(d) ==> d.atomics == mul_ratio(self.atomics as int, e18(), other.atomics as int),
    {
        Decimal18::checked_from_ratio(self.atomics, other.atomics)
    }
}

/// `amount * d`, rounded down to a whole number; `None` when it does not fit.
pub fn checked_mul_floor(amount: u128, d: Decimal18) -> (r: Option<u128>)
    ensures
        r is Some <==> mul_ratio(amount as int, d.atomics as int, e18()) <= u128::MAX,
        r matches Some(v) ==> v == mul_ratio(amount as int, d.atomics as int, e18()),
{
    u128_mul_ratio(amount, d.atomics, DECIMAL_FRACTIONAL)
}

/// Relies on cosmwasm's `Uint128::checked_multiply_ratio`: `a * num / den`
/// through a 256-bit product, rounded down; an error when `den` is zero or the
/// quotient exceeds 128 bits.
#[verifier::external_body]
fn u128_mul_ratio(a: u128, num: u128, den: u128) -> (r: Option<u128>)
    ensures
        den == 0 ==> r is None,
        den != 0 ==> (r is Some <==> mul_ratio(a as int, num as int, den as int) <= u128::MAX),
        r matches Some(v) ==> v == mul_ratio(a as int, num as int, den as int),
{
    match Uint128::new(a).checked_multiply_ratio(num, den) {
        Ok(v) => Some(v.u128()),
        Err(_) => None,
    }
}

/// The value of a big-endian byte string.
pub open spec fn be_value(s: Seq<u8>) -> nat
    decreases s.len(),
{
    if s.len() == 0 {
        0
    } else {
        be_value(s.drop_last()) * 256 + s.last() as nat
    }
}

/// An unsigned 256-bit integer, as 32 big-endian bytes.
#[derive(Clone, Copy, Debug)]
pub(crate) struct Wide {
    pub(crate) bytes: [u8; 32],
}

impl Wide {
    pub(crate) open spec fn value(&self) -> nat {
        be_value(self.bytes@)
    }
}

/// Relies on `Uint256::from(u128)` and `Uint256::to_be_bytes`: the same number
/// in 256 bits.
#[verifier::external_body]
pub(crate) fn wide_from_u128(x: u128) -> (r: Wide)
    ensures
        r.value() == x,
{
    Wide { bytes: Uint256::from(x).to_be_bytes() }
}

/// Relies on `Uint128::try_from(Uint256)`: the number when it fits in 128
/// bits, an error otherwise.
#[verifier::external_body]
pub(crate) fn wide_to_u128(w: &Wide) -> (r: Option<u128>)
    ensures
        r is Some <==> w.value() <= u128::MAX,
        r matches Some(v) ==> v == w.value(),
{
    match Uint128::try_from(Uint256::from_be_bytes(w.bytes)) {
        Ok(v) => Some(v.u128()),
        Err(_) => None,
    }
}

/// Relies on `Uint128::full_mul`: the exact product of two 128-bit numbers.
#[verifier::external_body]
pub(crate) fn wide_full_mul(a: u128, b: u128) -> (r: Wide)
    ensures
        r.value() == a * b,
{
    Wide { bytes: Uint128::new(a).full_mul(b).to_be_bytes() }
}

/// Relies on `Uint256::checked_add`: the sum, an error when it exceeds 256
/// bits.
#[verifier::external_body]
pub(crate) fn wide_add(a: &Wide, b: &Wide) -> (r: Option<Wide>)
    ensures
        r is Some <==> a.value() + b.value() <= wide_max(),
        r matches Some(v) ==> v.value() == a.value() + b.value(),
{
    match Uint256::from_be_bytes(a.bytes).checked_add(Uint256::from_be_bytes(b.bytes)) {
        Ok(v) => Some(Wide { bytes: v.to_be_bytes() }),
        Err(_) => None,
    }
}

/// Relies on `Uint256::checked_sub`: the difference, an error when `b > a`.
#[verifier::external_body]
pub(crate) fn wide_sub(a: &Wide, b: &Wide) -> (r: Option<Wide>)
    ensures
        r is Some <==> b.value() <= a.value(),
        r matches Some(v) ==> v.value() == a.value() - b.value(),
{
    match Uint256::from_be_bytes(a.bytes).checked_sub(Uint256::from_be_bytes(b.bytes)) {
        Ok(v) => Some(Wide { bytes: v.to_be_bytes() }),
        Err(_) => None,
    }
}

/// Relies on `Uint256::checked_multiply_ratio`: `a * num / den` through a
/// 512-bit product, rounded down; an error when `den` is zero or the quotient
/// exceeds 256 bits.
#[verifier::external_body]
pub(crate) fn wide_mul_ratio(a: &Wide, num: &Wide, den: &Wide) -> (r: Option<Wide>)
    ensures
        den.value() == 0 ==> r is None,
        den.value() != 0 ==> (r is Some <==> mul_ratio(a.value() as int, num.value() as int, den.value() as int) <= wide_max()),
        r matches Some(v) ==> v.value() == mul_ratio(a.value() as int, num.value() as int, den.value() as int),
{
    let a = Uint256::from_be_bytes(a.bytes);
    match a.checked_multiply_ratio(Uint256::from_be_bytes(num.bytes), Uint256::from_be_bytes(den.bytes)) {
        Ok(v) => Some(Wide { bytes: v.to_be_bytes() }),
        Err(_) => None,
    }
}

/// A quotient is at most its dividend.
pub proof fn lemma_div_le(x: int, d: int)
    requires
        x >= 0,
        d >= 1,
    ensures
        0 <= x / d <= x,
{
    lemma_div_is_ordered(0, x, d);
    lemma_mul_inequality(1, d, x);
    lemma_div_is_ordered(x, d * x, d);
    lemma_div_multiples_vanish(x, d);
}

/// Scaling by a fraction `o / d` with `o <= d` does not enlarge.
pub proof fn lemma_scale_le(o: int, d: int, x: int)
    requires
        0 <= o <= d,
        d >= 1,
        x >= 0,
    ensures
        0 <= (o * x) / d <= x,
{
    lemma_mul_inequality(0, o, x);
    lemma_mul_inequality(o, d, x);
    lemma_div_is_ordered(0, o * x, d);
    lemma_div_is_ordered(o * x, d * x, d);
    lemma_div_multiples_vanish(x, d);
}

/// A 129-bit number times `10^18` fits in 256 bits.
pub proof fn lemma_scaled_fits(x: int)
    requires
        0 <= x <= 2 * (u128::MAX as int) + 1,
    ensures
        0 <= x * e18() <= wide_max(),
{
    assert(0 <= x * e18() <= (2 * (u128::MAX as int) + 1) * e18()) by (nonlinear_arith)
        requires
            0 <= x <= 2 * (u128::MAX as int) + 1,
    ;
}

} // verus!
