//! Value arithmetic: checked fee and revenue computation.
//!
//! `split_fee` divides a payment between the platform treasury and the seller
//! with floor truncation that favours the seller, and guarantees that the two
//! shares add back up to the whole.

use vstd::prelude::*;

use crate::errors::ErrorCode;

verus! {

/// Basis-point denominator: 10000 bps == 100%.
pub const BPS_DENOMINATOR: u64 = 10000;

/// Platform fee charged on every purchase, in basis points (5%).
pub const PLATFORM_FEE_BPS: u64 = 500;

/// Upper bound the platform authority may configure the fee to (20%).
pub const MAX_FEE_BPS: u64 = 2000;

/// The platform's share of `total` at `fee_bps`, with floor truncation.
pub open spec fn fee_amount(total: u64, fee_bps: u64, denom: u64) -> int {
    (total * fee_bps) / (denom as int)
}

/// The seller's share of `total` at `fee_bps`: whatever the fee leaves.
pub open spec fn remainder_amount(total: u64, fee_bps: u64, denom: u64) -> int {
    total - fee_amount(total, fee_bps, denom)
}

/// Outcome of a fee split: `fee` goes to the treasury, `remainder` to the
/// seller.
#[derive(Clone, Copy, Debug, PartialEq, Eq, Structural)]
pub struct FeeSplit {
    pub fee: u64,
    pub remainder: u64,
}

/// Splits `total` into a platform fee of `fee_bps` basis points (floor) and
/// the seller's remainder. The two shares always add back up to `total`
/// exactly; truncation favours the remainder holder. Fails only on a zero
/// denominator, on a product too large for the unsigned range, or, when
/// `fee_bps` exceeds `denom`, on a fee larger than the whole.
pub fn split_fee(total: u64, fee_bps: u64, denom: u64) -> (r: Result<FeeSplit, ErrorCode>)
    ensures
        match r {
            Ok(s) => {
                &&& denom != 0
                &&& total * fee_bps <= u64::MAX
                &&& s.fee == fee_amount(total, fee_bps, denom)
                &&& s.remainder == remainder_amount(total, fee_bps, denom)
                &&& s.fee + s.remainder == total
            },
            Err(e) => {
                ||| (e == ErrorCode::DivisionByZero && denom == 0)
                ||| (e == ErrorCode::MathOverflow && denom != 0 && total * fee_bps > u64::MAX)
                ||| (e == ErrorCode::MathUnderflow && denom != 0 && total * fee_bps <= u64::MAX
                        && fee_amount(total, fee_bps, denom) > total)
            },
        },
        fee_bps <= denom && denom != 0 && total * fee_bps <= u64::MAX ==> r is Ok,
{
    if denom == 0 {
        return Err(ErrorCode::DivisionByZero);
    }
    let product = match total.checked_mul(fee_bps) {
        Some(p) => p,
        None => {
            return Err(ErrorCode::MathOverflow);
        },
    };
    let fee = product / denom;
    proof {
        if fee_bps <= denom {
            lemma_fee_at_most_total(total, fee_bps, denom);
        }
    }
    if fee > total {
        return Err(ErrorCode::MathUnderflow);
    }
    let remainder = total - fee;
    Ok(FeeSplit { fee, remainder })
}

/// For a fee rate within the denominator, the fee never exceeds the whole.
pub proof fn lemma_fee_at_most_total(total: u64, fee_bps: u64, denom: u64)
    requires
        0 < denom,
        fee_bps <= denom,
    ensures
        0 <= fee_amount(total, fee_bps, denom) <= total,
{
    let p = total * fee_bps;
    vstd::arithmetic::mul::lemma_mul_nonnegative(total as int, fee_bps as int);
    vstd::arithmetic::mul::lemma_mul_inequality(fee_bps as int, denom as int, total as int);
    vstd::arithmetic::mul::lemma_mul_is_commutative(total as int, fee_bps as int);
    vstd::arithmetic::mul::lemma_mul_is_commutative(total as int, denom as int);
    assert(p <= denom * total);
    vstd::arithmetic::div_mod::lemma_div_is_ordered(p, denom * total, denom as int);
    vstd::arithmetic::div_mod::lemma_div_multiples_vanish(total as int, denom as int);
    vstd::arithmetic::div_mod::lemma_div_pos_is_pos(p, denom as int);
}

/// Splitting preserves the whole: for every `total` and `fee_bps` within the
/// basis-point range whose product fits the unsigned range, the fee and the
/// remainder of the platform split add back up to `total` exactly.
pub proof fn lemma_split_preserves_total(total: u64, fee_bps: u64)
    requires
        fee_bps <= BPS_DENOMINATOR,
        total * fee_bps <= u64::MAX,
    ensures
        fee_amount(total, fee_bps, BPS_DENOMINATOR)
            + remainder_amount(total, fee_bps, BPS_DENOMINATOR) == total,
        0 <= remainder_amount(total, fee_bps, BPS_DENOMINATOR) <= total,
{
    lemma_fee_at_most_total(total, fee_bps, BPS_DENOMINATOR);
}

} // verus!
