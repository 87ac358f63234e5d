use vstd::prelude::*;

use crate::error::ErrorCode;

verus! {

/// Smallest indivisible units ("lamports") per whole unit of the collateral
/// asset: the fixed scale of every collateral amount the engine handles.
pub const LAMPORTS_PER_UNIT: u64 = 1_000_000_000;

/// Value, in whole USD-pegged debt units, of `lamports` base units of
/// collateral at `usd` USD per whole collateral unit; floored, so collateral
/// is never overvalued. Fails when the product leaves the working width.
pub open spec fn spec_lamports_to_usd(lamports: u64, usd: u64) -> Result<u64, ErrorCode> {
    if lamports * usd > u64::MAX {
        Err(ErrorCode::ArithmeticOverflow)
    } else {
        Ok((lamports * usd / LAMPORTS_PER_UNIT as int) as u64)
    }
}

/// Collateral base units worth `usd_amount` debt units at `usd_per_sol` USD
/// per whole collateral unit; floored. Fails on a zero price or when the
/// scaled amount leaves the working width.
pub open spec fn spec_usd_to_lamports(usd_amount: u64, usd_per_sol: u64) -> Result<
    u64,
    ErrorCode,
> {
    if usd_amount * LAMPORTS_PER_UNIT > u64::MAX {
        Err(ErrorCode::ArithmeticOverflow)
    } else if usd_per_sol == 0 {
        Err(ErrorCode::DivisionByZero)
    } else {
        Ok((usd_amount * LAMPORTS_PER_UNIT / usd_per_sol as int) as u64)
    }
}

/// Converts a collateral amount to its USD debt-unit value at the given
/// price: `floor(lamports * usd / LAMPORTS_PER_UNIT)`.
pub fn lamports_to_usd(lamports: u64, usd: u64) -> (r: Result<u64, ErrorCode>)
    ensures
        r == spec_lamports_to_usd(lamports, usd),
{
    match lamports.checked_mul(usd) {
        Some(product) => Ok(product / LAMPORTS_PER_UNIT),
        None => Err(ErrorCode::ArithmeticOverflow),
    }
}

/// Flooring in both conversion directions never creates value: valuing a
/// collateral amount in debt units and converting that value back yields at
/// most the original amount.
pub proof fn lemma_conversion_round_trip(x: u64, p: u64)
    requires
        p > 0,
        x * p <= u64::MAX,
    ensures
        spec_lamports_to_usd(x, p) is Ok,
        spec_usd_to_lamports(spec_lamports_to_usd(x, p)->Ok_0, p) is Ok,
        spec_usd_to_lamports(spec_lamports_to_usd(x, p)->Ok_0, p)->Ok_0 <= x,
{
    let k = LAMPORTS_PER_UNIT as int;
    let xp = x as int * p as int;
    let y = xp / k;
    vstd::arithmetic::div_mod::lemma_div_pos_is_pos(xp, k);
    vstd::arithmetic::div_mod::lemma_div_nonincreasing(xp, k);
    vstd::arithmetic::div_mod::lemma_remainder(xp, k);
    assert(y * k <= xp);
    vstd::arithmetic::div_mod::lemma_div_is_ordered(y * k, xp, p as int);
    vstd::arithmetic::mul::lemma_mul_is_commutative(x as int, p as int);
    vstd::arithmetic::div_mod::lemma_div_multiples_vanish(x as int, p as int);
    assert(y * k / (p as int) <= x);
}

/// Converts a USD debt-unit amount to collateral base units at the given
/// price: `floor(usd_amount * LAMPORTS_PER_UNIT / usd_per_sol)`.
pub fn usd_to_lamports(usd_amount: u64, usd_per_sol: u64) -> (r: Result<u64, ErrorCode>)
    ensures
        r == spec_usd_to_lamports(usd_amount, usd_per_sol),
{
    match usd_amount.checked_mul(LAMPORTS_PER_UNIT) {
        Some(scaled) => {
            if usd_per_sol == 0 {
                Err(ErrorCode::DivisionByZero)
            } else {
                Ok(scaled / usd_per_sol)
            }
        },
        None => Err(ErrorCode::ArithmeticOverflow),
    }
}

} // verus!
