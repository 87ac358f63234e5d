use vstd::prelude::*;

use crate::error::ErrorCode;

verus! {

/// Scale of the basis-point-like protocol scalars: the liquidation threshold
/// and the close factor are fractions of this.
pub const BASIS_POINT_SCALE: u64 = 10_000;

/// The health factor of a position as a mathematical value: the maximum
/// representable word for a debt-free position (it can never be liquidated),
/// otherwise the floored basis-point-scaled loan-to-value capacity
/// `collateral_value * threshold / debt / BASIS_POINT_SCALE`.
pub open spec fn health_factor_value(borrowed: int, collateral_usd: int, max_lts: int) -> int {
    if borrowed == 0 {
        u64::MAX as int
    } else {
        collateral_usd * max_lts / borrowed / (BASIS_POINT_SCALE as int)
    }
}

/// The health factor as the engine computes it: the exact mathematical value,
/// or an arithmetic fault when the collateral-value product leaves the
/// working width — a fault, never a silent saturation.
pub open spec fn spec_health_factor(
    borrowed_amt: u64,
    collateral_amount_in_usd: u64,
    max_lts: u64,
) -> Result<u64, ErrorCode> {
    if borrowed_amt == 0 {
        Ok(u64::MAX)
    } else if collateral_amount_in_usd * max_lts > u64::MAX {
        Err(ErrorCode::ArithmeticOverflow)
    } else {
        Ok(
            (health_factor_value(
                borrowed_amt as int,
                collateral_amount_in_usd as int,
                max_lts as int,
            )) as u64,
        )
    }
}

/// Computes the health factor of a position from its debt, the USD value of
/// its collateral, and the configured liquidation threshold.
pub fn calculate_health_factor(borrowed_amt: u64, collateral_amount_in_usd: u64, max_lts: u64) -> (r:
    Result<u64, ErrorCode>)
    ensures
        r == spec_health_factor(borrowed_amt, collateral_amount_in_usd, max_lts),
        r is Ok ==> r->Ok_0 == health_factor_value(
            borrowed_amt as int,
            collateral_amount_in_usd as int,
            max_lts as int,
        ),
{
    if borrowed_amt == 0 {
        return Ok(u64::MAX);
    }
    match collateral_amount_in_usd.checked_mul(max_lts) {
        Some(scaled) => Ok(scaled / borrowed_amt / BASIS_POINT_SCALE),
        None => Err(ErrorCode::ArithmeticOverflow),
    }
}

} // verus!
