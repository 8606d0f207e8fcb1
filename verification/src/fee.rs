//! The fee calculator: which percentage is charged, and how a deposit is
//! split into the fee and the amount that goes on to the swap.

use vstd::prelude::*;
use crate::decimal::{Decimal, DECIMAL_FRACTIONAL};
use crate::error::{ContractError, ErrorView, RatioError};

verus! {

/// The count of atomic units of one hundred percent: `100 * 10^18`.
///
/// A percentage `p` held as `a` atomic units stands for `a / 10^18` percent,
/// so the share of an amount that it takes is `amount * a / PERCENT_SCALE`.
pub const PERCENT_SCALE: u128 = 100_000_000_000_000_000_000;

/// The percentage that is charged, in atomic units: the requested one, taken
/// as zero where it is absent, raised to zero where it is negative and capped
/// at the ceiling.
pub open spec fn effective_percentage(requested: Option<int>, ceiling: int) -> int {
    let asked = match requested {
        Some(r) => r,
        None => 0,
    };
    if asked < 0 {
        0
    } else if asked > ceiling {
        ceiling
    } else {
        asked
    }
}

/// The fee taken from `deposited` at `percentage` atomic units of a percent:
/// `floor(deposited * percentage / 100)`, the percentage read as a number.
pub open spec fn fee_amount(deposited: int, percentage: int) -> int {
    deposited * percentage / (PERCENT_SCALE as int)
}

/// What is left of `deposited` once the fee is taken.
pub open spec fn remaining_amount(deposited: int, percentage: int) -> int {
    deposited - fee_amount(deposited, percentage)
}

/// The atomic units of an optional percentage, as integers.
pub open spec fn requested_atomics(requested: Option<Decimal>) -> Option<int> {
    match requested {
        Some(d) => Some(d.atomics as int),
        None => None,
    }
}

/// A deposit split into the fee and the amount that is swapped.
#[derive(Clone, Copy, Debug, PartialEq, Eq, Structural)]
pub struct FeeSplit {
    pub fee: u128,
    pub remaining: u128,
}

/// What multiplying `value` by `numerator / denominator` in full width and
/// flooring gives, for three integers of 128 bits: the quotient where it fits
/// in 128 bits, `DivideByZero` for a zero denominator, `Overflow` otherwise.
pub open spec fn ratio_outcome(value: int, numerator: int, denominator: int) -> Result<u128, RatioError> {
    if denominator == 0 {
        Err(RatioError::DivideByZero)
    } else if value * numerator / denominator > u128::MAX {
        Err(RatioError::Overflow)
    } else {
        Ok((value * numerator / denominator) as u128)
    }
}

/// `cosmwasm_std::Uint128::checked_multiply_ratio` on plain integers.
///
/// The outside function multiplies in 256 bits and floors the quotient. It
/// reports a zero denominator first, then a quotient that does not fit in
/// 128 bits; in every other case it returns the floored quotient.
#[verifier::external_body]
fn checked_multiply_ratio(value: u128, numerator: u128, denominator: u128) -> (r: Result<u128, RatioError>)
    ensures
        r == ratio_outcome(value as int, numerator as int, denominator as int),
{
    match cosmwasm_std::Uint128::new(value).checked_multiply_ratio(numerator, denominator) {
        Ok(quotient) => Ok(quotient.u128()),
        Err(cosmwasm_std::CheckedMultiplyRatioError::DivideByZero) => Err(RatioError::DivideByZero),
        Err(cosmwasm_std::CheckedMultiplyRatioError::Overflow) => Err(RatioError::Overflow),
    }
}

/// The percentage that is charged: `requested`, zero where it is absent,
/// capped at `ceiling`. A request above the ceiling is capped, not rejected.
pub fn effective_fee_percentage(requested: Option<Decimal>, ceiling: Decimal) -> (effective: Decimal)
    ensures
        effective.atomics == effective_percentage(
            requested_atomics(requested),
            ceiling.atomics as int,
        ),
{
    match requested {
        Some(asked) => {
            if asked.atomics > ceiling.atomics {
                ceiling
            } else {
                asked
            }
        },
        None => Decimal::zero(),
    }
}

/// How a deposit is split at the effective percentage: the fee and what is
/// left of the deposit. A fee that does not fit in 128 bits is
/// `Math(Overflow)`; one that fits but exceeds the deposit is `Overflow`.
/// Neither can happen with a ceiling of at most one hundred percent.
pub open spec fn fee_split(deposited: int, requested: Option<int>, ceiling: int) -> Result<FeeSplit, ErrorView> {
    let fee = fee_amount(deposited, effective_percentage(requested, ceiling));
    if fee > u128::MAX {
        Err(ErrorView::Math(RatioError::Overflow))
    } else if fee > deposited {
        Err(ErrorView::Overflow)
    } else {
        Ok(FeeSplit { fee: fee as u128, remaining: (deposited - fee) as u128 })
    }
}

/// Splits `deposited` into the fee at the effective percentage and the rest.
///
/// With a ceiling of at most one hundred percent the split always succeeds.
pub fn compute_fee(deposited: u128, requested: Option<Decimal>, ceiling: Decimal) -> (r: Result<FeeSplit, ContractError>)
    ensures
        match r {
            Ok(split) => fee_split(
                deposited as int,
                requested_atomics(requested),
                ceiling.atomics as int,
            ) == Ok::<FeeSplit, ErrorView>(split),
            Err(e) => fee_split(
                deposited as int,
                requested_atomics(requested),
                ceiling.atomics as int,
            ) == Err::<FeeSplit, ErrorView>(e@),
        },
        ceiling.atomics <= PERCENT_SCALE ==> r is Ok,
{
    let effective = effective_fee_percentage(requested, ceiling);
    proof {
        lemma_fee_within_deposit(deposited as int, effective.atomics as int);
        lemma_effective_percentage_bounded(
            requested_atomics(requested),
            ceiling.atomics as int,
        );
    }
    match checked_multiply_ratio(deposited, effective.atomics, PERCENT_SCALE) {
        Ok(fee) => {
            if fee <= deposited {
                Ok(FeeSplit { fee, remaining: deposited - fee })
            } else {
                Err(ContractError::Overflow {  })
            }
        },
        Err(e) => Err(ContractError::Math(e)),
    }
}

/// At a percentage between zero and one hundred the fee lies between zero
/// and the deposit.
pub proof fn lemma_fee_within_deposit(deposited: int, percentage: int)
    requires
        0 <= deposited,
    ensures
        0 <= percentage ==> 0 <= fee_amount(deposited, percentage),
        0 <= percentage <= PERCENT_SCALE ==> fee_amount(deposited, percentage) <= deposited,
{
    let scale = PERCENT_SCALE as int;
    if 0 <= percentage {
        assert(0 <= deposited * percentage) by (nonlinear_arith)
            requires
                0 <= deposited,
                0 <= percentage,
        ;
        assert(0 <= (deposited * percentage) / scale) by (nonlinear_arith)
            requires
                0 <= deposited * percentage,
                scale > 0,
        ;
        if percentage <= scale {
            assert(deposited * percentage <= deposited * scale) by (nonlinear_arith)
                requires
                    0 <= deposited,
                    percentage <= scale,
            ;
            assert((deposited * percentage) / scale <= deposited) by (nonlinear_arith)
                requires
                    deposited * percentage <= deposited * scale,
                    scale > 0,
            ;
        }
    }
}

/// No leakage: for every deposit and every effective percentage between zero
/// and one hundred, the fee and the remaining amount add up to the deposit,
/// neither is negative, and the fee is `floor(deposited * percentage / 100)`.
pub proof fn lemma_fee_split_exact(deposited: int, percentage: int)
    requires
        0 <= deposited,
        0 <= percentage <= PERCENT_SCALE,
    ensures
        fee_amount(deposited, percentage) + remaining_amount(deposited, percentage) == deposited,
        0 <= fee_amount(deposited, percentage) <= deposited,
        0 <= remaining_amount(deposited, percentage) <= deposited,
        fee_amount(deposited, percentage) == (deposited * percentage) / (100
            * DECIMAL_FRACTIONAL),
        (100 * DECIMAL_FRACTIONAL) * fee_amount(deposited, percentage) <= deposited * percentage
            < (100 * DECIMAL_FRACTIONAL) * (fee_amount(deposited, percentage) + 1),
{
    lemma_fee_within_deposit(deposited, percentage);
    let scale = PERCENT_SCALE as int;
    let product = deposited * percentage;
    assert(scale * (product / scale) <= product < scale * (product / scale + 1))
        by (nonlinear_arith)
        requires
            scale > 0,
    ;
}

/// A request above the ceiling is charged at the ceiling, never at the
/// requested value.
pub proof fn lemma_request_above_ceiling_is_capped(requested: int, ceiling: int)
    requires
        0 <= ceiling,
        requested > ceiling,
    ensures
        effective_percentage(Some(requested), ceiling) == ceiling,
        effective_percentage(Some(requested), ceiling) != requested,
{
}

/// A negative request is charged at zero.
pub proof fn lemma_negative_request_is_zero(requested: int, ceiling: int)
    requires
        requested < 0,
    ensures
        effective_percentage(Some(requested), ceiling) == 0,
{
}

/// An absent request is charged at zero.
pub proof fn lemma_absent_request_is_zero(ceiling: int)
    requires
        0 <= ceiling,
    ensures
        effective_percentage(None, ceiling) == 0,
{
}

/// The effective percentage always lies between zero and the ceiling.
pub proof fn lemma_effective_percentage_bounded(requested: Option<int>, ceiling: int)
    requires
        0 <= ceiling,
    ensures
        0 <= effective_percentage(requested, ceiling) <= ceiling,
{
}

} // verus!
