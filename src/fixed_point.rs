use vstd::prelude::*;

use fixed::types::U64F64;

verus! {

/// One, as the raw bits of an unsigned 64.64 fixed-point number.
pub const FIXED_ONE: u128 = 0x1_0000_0000_0000_0000;

/// The quotient of two 64.64 numbers given by their bits, rounded down; none
/// for a zero divisor or where it does not fit.
pub open spec fn fixed_quotient(a: int, b: int) -> Option<u128> {
    if b == 0 || a * (FIXED_ONE as int) / b > u128::MAX {
        None
    } else {
        Some((a * (FIXED_ONE as int) / b) as u128)
    }
}

/// The product of two 64.64 numbers given by their bits, rounded down; none
/// where it does not fit.
pub open spec fn fixed_product(a: int, b: int) -> Option<u128> {
    if a * b / (FIXED_ONE as int) > u128::MAX {
        None
    } else {
        Some((a * b / (FIXED_ONE as int)) as u128)
    }
}

/// Relies on fixed's `U64F64::checked_div`: the quotient, truncated to 64
/// fractional bits, or `None` if the divisor is zero or on overflow.
#[verifier::external_body]
pub(crate) fn u64f64_checked_div(a: u128, b: u128) -> (r: Option<u128>)
    ensures
        r == fixed_quotient(a as int, b as int),
{
    match U64F64::from_bits(a).checked_div(U64F64::from_bits(b)) {
        Some(q) => Some(q.to_bits()),
        None => None,
    }
}

/// Relies on fixed's `U64F64::checked_mul`: the product, truncated to 64
/// fractional bits, or `None` on overflow.
#[verifier::external_body]
pub(crate) fn u64f64_checked_mul(a: u128, b: u128) -> (r: Option<u128>)
    ensures
        r == fixed_product(a as int, b as int),
{
    match U64F64::from_bits(a).checked_mul(U64F64::from_bits(b)) {
        Some(p) => Some(p.to_bits()),
        None => None,
    }
}

/// `amount * num / den` in 64.64 fixed point, as the house pool prices its
/// shares: the ratio `num / den` is rounded down to 64 fractional bits, then
/// multiplied by `amount`, and the integer part of the product is kept.
pub open spec fn scaled_amount(num: u64, den: u64, amount: u64) -> Option<u64> {
    match fixed_quotient(num * (FIXED_ONE as int), den * (FIXED_ONE as int)) {
        None => None,
        Some(q) => match fixed_product(q as int, amount * (FIXED_ONE as int)) {
            None => None,
            Some(p) => Some((p / FIXED_ONE) as u64),
        },
    }
}

pub fn scale_amount(num: u64, den: u64, amount: u64) -> (r: Option<u64>)
    ensures
        r == scaled_amount(num, den, amount),
{
    let a = (num as u128) * FIXED_ONE;
    let b = (den as u128) * FIXED_ONE;
    let q = match u64f64_checked_div(a, b) {
        Some(q) => q,
        None => {
            return None;
        },
    };
    let m = (amount as u128) * FIXED_ONE;
    match u64f64_checked_mul(q, m) {
        Some(p) => Some((p / FIXED_ONE) as u64),
        None => None,
    }
}

} // verus!
