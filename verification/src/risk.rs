//! Collateralization and liquidation arithmetic.
//!
//! A ratio is a percentage: 150 stands for 150%. A position without debt has
//! the largest ratio there is.

use crate::math::{
    checked_mul_div, in_range, min_i128, min_int, mul_div,
    mul_div_fits, trunc_div,
};
use vstd::prelude::*;

verus! {

/// Collateral as a percentage of debt, both in the same unit.
pub open spec fn plain_ratio(collateral: int, debt: int) -> int {
    if debt == 0 {
        i128::MAX as int
    } else {
        mul_div(collateral, 100, debt)
    }
}

/// The plain ratio can be computed within the 128-bit range.
pub open spec fn plain_ratio_fits(collateral: int, debt: int) -> bool {
    debt == 0 || mul_div_fits(collateral, 100, debt)
}

/// The value of `collateral` at the scaled `price`.
pub open spec fn collateral_value(collateral: int, price: int) -> int {
    mul_div(collateral, price, 100_000_000)
}

/// The value of the collateral at `price`, as a percentage of debt.
pub open spec fn ratio(collateral: int, price: int, debt: int) -> int {
    if debt == 0 {
        i128::MAX as int
    } else {
        trunc_div(collateral_value(collateral, price) * 100, debt)
    }
}

/// The ratio at `price` can be computed within the 128-bit range.
pub open spec fn ratio_fits(collateral: int, price: int, debt: int) -> bool {
    debt == 0 || {
        &&& mul_div_fits(collateral, price, 100_000_000)
        &&& mul_div_fits(collateral_value(collateral, price), 100, debt)
    }
}

/// The most of a debt that one liquidation may repay.
pub open spec fn close_limit(debt: int, close_factor: int) -> int {
    mul_div(debt, close_factor, 100_000_000)
}

/// What a liquidation repays: the requested amount, but neither more than
/// the debt nor more than the close factor allows.
pub open spec fn repay_amount(requested: int, debt: int, close_factor: int) -> int {
    min_int(min_int(requested, debt), close_limit(debt, close_factor))
}

/// The bonus a liquidator earns on what is repaid.
pub open spec fn incentive(repaid: int, liquidation_incentive: int) -> int {
    mul_div(repaid, liquidation_incentive, 100_000_000)
}

/// The collateral a liquidation takes: what is repaid plus the bonus, but
/// not more than there is.
pub open spec fn seized_collateral(repaid: int, liquidation_incentive: int, collateral: int)
    -> int {
    min_int(repaid + incentive(repaid, liquidation_incentive), collateral)
}

/// The bonus and the sum of repayment and bonus can be computed within the
/// 128-bit range.
pub open spec fn seizure_fits(repaid: int, liquidation_incentive: int) -> bool {
    &&& mul_div_fits(repaid, liquidation_incentive, 100_000_000)
    &&& in_range(repaid + incentive(repaid, liquidation_incentive))
}

/// Collateral as a percentage of debt, or nothing where it cannot be
/// computed.
pub fn checked_plain_ratio(collateral: i128, debt: i128) -> (r: Option<i128>)
    ensures
        r == (if plain_ratio_fits(collateral as int, debt as int) {
            Some(plain_ratio(collateral as int, debt as int) as i128)
        } else {
            None
        }),
{
    if debt == 0 {
        return Some(i128::MAX);
    }
    checked_mul_div(collateral, 100, debt)
}

/// The value of the collateral at `price` as a percentage of debt, or nothing
/// where it cannot be computed.
pub fn checked_ratio(collateral: i128, price: i128, debt: i128) -> (r: Option<i128>)
    ensures
        r == (if ratio_fits(collateral as int, price as int, debt as int) {
            Some(ratio(collateral as int, price as int, debt as int) as i128)
        } else {
            None
        }),
{
    if debt == 0 {
        return Some(i128::MAX);
    }
    let value = match checked_mul_div(collateral, price, 100_000_000) {
        Some(v) => v,
        None => { return None; },
    };
    checked_mul_div(value, 100, debt)
}

/// The repayment of a liquidation, or nothing where the close limit is not
/// representable.
pub fn checked_repay_amount(requested: i128, debt: i128, close_factor: i128) -> (r: Option<i128>)
    ensures
        r == (if mul_div_fits(debt as int, close_factor as int, 100_000_000) {
            Some(repay_amount(requested as int, debt as int, close_factor as int) as i128)
        } else {
            None
        }),
{
    let limit = match checked_mul_div(debt, close_factor, 100_000_000) {
        Some(v) => v,
        None => { return None; },
    };
    Some(min_i128(min_i128(requested, debt), limit))
}

/// The collateral taken by a liquidation, or nothing where the bonus is not
/// representable.
pub fn checked_seized_collateral(repaid: i128, liquidation_incentive: i128, collateral: i128) -> (r:
    Option<i128>)
    ensures
        r == (if seizure_fits(repaid as int, liquidation_incentive as int) {
            Some(
                seized_collateral(repaid as int, liquidation_incentive as int, collateral as int)
                    as i128,
            )
        } else {
            None
        }),
{
    let bonus = match checked_mul_div(repaid, liquidation_incentive, 100_000_000) {
        Some(v) => v,
        None => { return None; },
    };
    let total = match repaid.checked_add(bonus) {
        Some(v) => v,
        None => { return None; },
    };
    Some(min_i128(total, collateral))
}

} // verus!
