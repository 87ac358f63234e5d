use vstd::prelude::*;

use crate::convert::{lamports_to_usd, spec_lamports_to_usd, spec_usd_to_lamports, usd_to_lamports};
use crate::error::ErrorCode;
use crate::price::{
    normalized_price, spec_normalized_price, spec_validate_quote, validate_quote, PriceQuote,
};
use crate::risk::{calculate_health_factor, health_factor_value, spec_health_factor};
use crate::state::{Collateral, Config};

verus! {

/// Scale of the liquidator incentive: `liq_bonus` is a fraction of this.
pub const LIQ_BONUS_SCALE: u64 = 100_000;

/// The deposit-and-mint transition on a position. Validates the quote,
/// normalizes the price, values the deposited amount in debt units, checks
/// that the grown position stays healthy at the existing debt, and grows the
/// balances; the second component of a successful result is the number of
/// debt units to mint to the depositor. Any failure leaves the position as it
/// was.
pub open spec fn spec_deposit(
    c: Collateral,
    cfg: Config,
    q: PriceQuote,
    expected_feed: u64,
    now: u64,
    amount: u64,
) -> Result<(Collateral, u64), ErrorCode> {
    match spec_validate_quote(q, expected_feed, now) {
        Err(e) => Err(e),
        Ok(_) => match spec_normalized_price(q) {
            Err(e) => Err(e),
            Ok(usd) => match spec_lamports_to_usd(amount, usd) {
                Err(e) => Err(e),
                Ok(minted) => if c.lamports + amount > u64::MAX {
                    Err(ErrorCode::ArithmeticOverflow)
                } else {
                    let new_lamports = (c.lamports + amount) as u64;
                    match spec_lamports_to_usd(new_lamports, usd) {
                        Err(e) => Err(e),
                        Ok(new_cusd) => match spec_health_factor(c.coins, new_cusd, cfg.liq_thx) {
                            Err(e) => Err(e),
                            Ok(hf) => if hf == 0 {
                                Err(ErrorCode::HealthFactorError)
                            } else if c.coins + minted > u64::MAX {
                                Err(ErrorCode::ArithmeticOverflow)
                            } else {
                                Ok(
                                    (
                                        Collateral {
                                            lamports: new_lamports,
                                            coins: (c.coins + minted) as u64,
                                            ..c
                                        },
                                        minted,
                                    ),
                                )
                            },
                        },
                    }
                },
            },
        },
    }
}

/// Deposit-and-mint: adds `amount` collateral base units to the position and
/// returns the debt units to mint for them. The caller has already moved the
/// collateral into protocol custody; on success it mints the returned amount
/// to the depositor, and on failure it commits nothing.
pub fn process_deposit(
    collateral: &mut Collateral,
    config: &Config,
    quote: &PriceQuote,
    expected_feed: u64,
    now: u64,
    amount: u64,
) -> (r: Result<u64, ErrorCode>)
    requires
        amount > 0,
    ensures
        (match spec_deposit(*old(collateral), *config, *quote, expected_feed, now, amount) {
            Ok(p) => r == Ok::<u64, ErrorCode>(p.1) && *final(collateral) == p.0,
            Err(e) => r == Err::<u64, ErrorCode>(e) && *final(collateral) == *old(collateral),
        }),
        // balances never shrink, and the minted amount is exactly the floored
        // debt-unit value of the deposit at the normalized price
        r is Ok ==> final(collateral).lamports == old(collateral).lamports + amount
            && final(collateral).coins == old(collateral).coins + r->Ok_0
            && spec_normalized_price(*quote) is Ok && Ok::<u64, ErrorCode>(r->Ok_0)
            == spec_lamports_to_usd(amount, spec_normalized_price(*quote)->Ok_0),
        r is Err ==> *final(collateral) == *old(collateral),
{
    match validate_quote(quote, expected_feed, now) {
        Err(e) => {
            return Err(e);
        },
        Ok(_) => {},
    }
    let usd = match normalized_price(quote) {
        Ok(v) => v,
        Err(e) => {
            return Err(e);
        },
    };
    let minted = match lamports_to_usd(amount, usd) {
        Ok(v) => v,
        Err(e) => {
            return Err(e);
        },
    };
    let new_lamports = match collateral.lamports.checked_add(amount) {
        Some(v) => v,
        None => {
            return Err(ErrorCode::ArithmeticOverflow);
        },
    };
    let new_collateral_in_usd = match lamports_to_usd(new_lamports, usd) {
        Ok(v) => v,
        Err(e) => {
            return Err(e);
        },
    };
    let hf = match calculate_health_factor(collateral.coins, new_collateral_in_usd, config.liq_thx) {
        Ok(v) => v,
        Err(e) => {
            return Err(e);
        },
    };
    if hf == 0 {
        return Err(ErrorCode::HealthFactorError);
    }
    let new_coins = match collateral.coins.checked_add(minted) {
        Some(v) => v,
        None => {
            return Err(ErrorCode::ArithmeticOverflow);
        },
    };
    collateral.lamports = new_lamports;
    collateral.coins = new_coins;
    Ok(minted)
}

/// The withdraw-and-burn transition on a position. Validates the quote,
/// converts the retired debt units to collateral base units, checks that the
/// position at its reduced debt still meets the configured health-factor
/// floor, and shrinks the balances; the second component of a successful
/// result is the collateral to return to the withdrawer — never more than the
/// position holds, even when the price implies a larger equivalent. Any
/// failure leaves the position as it was.
pub open spec fn spec_withdraw(
    c: Collateral,
    cfg: Config,
    q: PriceQuote,
    expected_feed: u64,
    now: u64,
    withdraw_amount: u64,
) -> Result<(Collateral, u64), ErrorCode> {
    match spec_validate_quote(q, expected_feed, now) {
        Err(e) => Err(e),
        Ok(_) => match spec_normalized_price(q) {
            Err(e) => Err(e),
            Ok(usd) => match spec_usd_to_lamports(withdraw_amount, usd) {
                Err(e) => Err(e),
                Ok(equivalent) => match spec_lamports_to_usd(c.lamports, usd) {
                    Err(e) => Err(e),
                    Ok(cusd) => if withdraw_amount > c.coins {
                        Err(ErrorCode::ArithmeticUnderflow)
                    } else {
                        let new_coins = (c.coins - withdraw_amount) as u64;
                        match spec_health_factor(new_coins, cusd, cfg.liq_thx) {
                            Err(e) => Err(e),
                            Ok(hf) => if hf < cfg.min_health_factor {
                                Err(ErrorCode::HealthFactorError)
                            } else {
                                let returned = if equivalent > c.lamports {
                                    c.lamports
                                } else {
                                    equivalent
                                };
                                Ok(
                                    (
                                        Collateral {
                                            lamports: (c.lamports - returned) as u64,
                                            coins: new_coins,
                                            ..c
                                        },
                                        returned,
                                    ),
                                )
                            },
                        }
                    },
                },
            },
        },
    }
}

/// Withdraw-and-burn: retires `withdraw_amount` debt units from the position
/// and returns the collateral base units to hand back. On success the caller
/// burns the retired units and transfers the returned collateral out of
/// custody; on failure it commits nothing.
pub fn withdraw_burn(
    collateral: &mut Collateral,
    config: &Config,
    quote: &PriceQuote,
    expected_feed: u64,
    now: u64,
    withdraw_amount: u64,
) -> (r: Result<u64, ErrorCode>)
    requires
        withdraw_amount > 0,
    ensures
        (match spec_withdraw(*old(collateral), *config, *quote, expected_feed, now, withdraw_amount) {
            Ok(p) => r == Ok::<u64, ErrorCode>(p.1) && *final(collateral) == p.0,
            Err(e) => r == Err::<u64, ErrorCode>(e) && *final(collateral) == *old(collateral),
        }),
        // a successful withdrawal leaves the position at or above the
        // configured health-factor floor, evaluated at the reduced debt and
        // the current collateral value
        r is Ok ==> ({
            let usd = spec_normalized_price(*quote)->Ok_0;
            let cusd = spec_lamports_to_usd(old(collateral).lamports, usd)->Ok_0;
            &&& withdraw_amount <= old(collateral).coins
            &&& final(collateral).coins == old(collateral).coins - withdraw_amount
            &&& health_factor_value(
                final(collateral).coins as int,
                cusd as int,
                config.liq_thx as int,
            ) >= config.min_health_factor
            &&& r->Ok_0 <= old(collateral).lamports
            &&& final(collateral).lamports == old(collateral).lamports - r->Ok_0
        }),
        r is Err ==> *final(collateral) == *old(collateral),
{
    match validate_quote(quote, expected_feed, now) {
        Err(e) => {
            return Err(e);
        },
        Ok(_) => {},
    }
    let usd = match normalized_price(quote) {
        Ok(v) => v,
        Err(e) => {
            return Err(e);
        },
    };
    let equivalent = match usd_to_lamports(withdraw_amount, usd) {
        Ok(v) => v,
        Err(e) => {
            return Err(e);
        },
    };
    let total_collateral_in_usd = match lamports_to_usd(collateral.lamports, usd) {
        Ok(v) => v,
        Err(e) => {
            return Err(e);
        },
    };
    let new_coins = match collateral.coins.checked_sub(withdraw_amount) {
        Some(v) => v,
        None => {
            return Err(ErrorCode::ArithmeticUnderflow);
        },
    };
    let hf = match calculate_health_factor(new_coins, total_collateral_in_usd, config.liq_thx) {
        Ok(v) => v,
        Err(e) => {
            return Err(e);
        },
    };
    if hf < config.min_health_factor {
        return Err(ErrorCode::HealthFactorError);
    }
    // never transfer more collateral than the position holds
    let returned = if equivalent > collateral.lamports {
        collateral.lamports
    } else {
        equivalent
    };
    collateral.coins = new_coins;
    collateral.lamports = collateral.lamports - returned;
    Ok(returned)
}

/// The largest collateral amount, in base units, liquidatable from a position
/// in one call: the close-factor fraction of its collateral.
pub open spec fn spec_max_liquidation_amount(c: Collateral, cfg: Config) -> int {
    cfg.close_factor * c.lamports / (crate::risk::BASIS_POINT_SCALE as int)
}

/// The liquidate transition on a position. Validates the quote, requires the
/// position to be unhealthy (health factor below one), converts the repaid
/// debt units to collateral base units, adds the liquidator's bonus, caps the
/// seizure at the close-factor fraction of the collateral, and shrinks the
/// balances; the second component of a successful result is the collateral to
/// hand the liquidator. Any failure leaves the position as it was.
pub open spec fn spec_liquidate(
    c: Collateral,
    cfg: Config,
    q: PriceQuote,
    expected_feed: u64,
    now: u64,
    coin_amount: u64,
) -> Result<(Collateral, u64), ErrorCode> {
    match spec_validate_quote(q, expected_feed, now) {
        Err(e) => Err(e),
        Ok(_) => match spec_normalized_price(q) {
            Err(e) => Err(e),
            Ok(usd) => match spec_lamports_to_usd(c.lamports, usd) {
                Err(e) => Err(e),
                Ok(cusd) => match spec_health_factor(c.coins, cusd, cfg.liq_thx) {
                    Err(e) => Err(e),
                    Ok(hf) => if hf >= 1 {
                        Err(ErrorCode::HealthFactorError)
                    } else if cfg.close_factor * c.lamports > u64::MAX {
                        Err(ErrorCode::ArithmeticOverflow)
                    } else {
                        let max_liq = spec_max_liquidation_amount(c, cfg) as u64;
                        match spec_usd_to_lamports(coin_amount, usd) {
                            Err(e) => Err(e),
                            Ok(equivalent) => if equivalent * cfg.liq_bonus > u64::MAX {
                                Err(ErrorCode::ArithmeticOverflow)
                            } else {
                                let bonus = (equivalent * cfg.liq_bonus / (
                                LIQ_BONUS_SCALE as int)) as u64;
                                if equivalent + bonus > u64::MAX {
                                    Err(ErrorCode::ArithmeticOverflow)
                                } else {
                                    let seize = (equivalent + bonus) as u64;
                                    if seize > max_liq {
                                        Err(ErrorCode::MaxLiquidationAmount)
                                    } else if coin_amount > c.coins || seize > c.lamports {
                                        Err(ErrorCode::ArithmeticUnderflow)
                                    } else {
                                        Ok(
                                            (
                                                Collateral {
                                                    lamports: (c.lamports - seize) as u64,
                                                    coins: (c.coins - coin_amount) as u64,
                                                    ..c
                                                },
                                                seize,
                                            ),
                                        )
                                    }
                                }
                            },
                        }
                    },
                },
            },
        },
    }
}

/// Liquidate: repays `coin_amount` debt units on an unhealthy position and
/// returns the collateral base units (repaid value plus bonus) to seize for
/// the liquidator. On success the caller burns the repaid units from the
/// liquidator and transfers the seized collateral out of the position's
/// custody; on failure it commits nothing.
pub fn process_liquidate(
    collateral: &mut Collateral,
    config: &Config,
    quote: &PriceQuote,
    expected_feed: u64,
    now: u64,
    coin_amount: u64,
) -> (r: Result<u64, ErrorCode>)
    requires
        coin_amount > 0,
    ensures
        (match spec_liquidate(*old(collateral), *config, *quote, expected_feed, now, coin_amount) {
            Ok(p) => r == Ok::<u64, ErrorCode>(p.1) && *final(collateral) == p.0,
            Err(e) => r == Err::<u64, ErrorCode>(e) && *final(collateral) == *old(collateral),
        }),
        // liquidation only ever touches a position whose health factor was
        // below one at the quoted price
        r is Ok ==> ({
            let usd = spec_normalized_price(*quote)->Ok_0;
            let cusd = spec_lamports_to_usd(old(collateral).lamports, usd)->Ok_0;
            health_factor_value(
                old(collateral).coins as int,
                cusd as int,
                config.liq_thx as int,
            ) < 1
        }),
        // the seizure never exceeds the close-factor cap
        r is Ok ==> r->Ok_0 <= spec_max_liquidation_amount(*old(collateral), *config)
            && coin_amount <= old(collateral).coins && r->Ok_0 <= old(collateral).lamports
            && final(collateral).coins == old(collateral).coins - coin_amount
            && final(collateral).lamports == old(collateral).lamports - r->Ok_0,
        r is Err ==> *final(collateral) == *old(collateral),
{
    match validate_quote(quote, expected_feed, now) {
        Err(e) => {
            return Err(e);
        },
        Ok(_) => {},
    }
    let usd = match normalized_price(quote) {
        Ok(v) => v,
        Err(e) => {
            return Err(e);
        },
    };
    let collateral_in_usd = match lamports_to_usd(collateral.lamports, usd) {
        Ok(v) => v,
        Err(e) => {
            return Err(e);
        },
    };
    let hf = match calculate_health_factor(collateral.coins, collateral_in_usd, config.liq_thx) {
        Ok(v) => v,
        Err(e) => {
            return Err(e);
        },
    };
    // a healthy position cannot be liquidated
    if hf >= 1 {
        return Err(ErrorCode::HealthFactorError);
    }
    let max_liq = match config.close_factor.checked_mul(collateral.lamports) {
        Some(v) => v / crate::risk::BASIS_POINT_SCALE,
        None => {
            return Err(ErrorCode::ArithmeticOverflow);
        },
    };
    let equivalent = match usd_to_lamports(coin_amount, usd) {
        Ok(v) => v,
        Err(e) => {
            return Err(e);
        },
    };
    let bonus = match equivalent.checked_mul(config.liq_bonus) {
        Some(v) => v / LIQ_BONUS_SCALE,
        None => {
            return Err(ErrorCode::ArithmeticOverflow);
        },
    };
    let seize = match equivalent.checked_add(bonus) {
        Some(v) => v,
        None => {
            return Err(ErrorCode::ArithmeticOverflow);
        },
    };
    if seize > max_liq {
        return Err(ErrorCode::MaxLiquidationAmount);
    }
    let new_coins = match collateral.coins.checked_sub(coin_amount) {
        Some(v) => v,
        None => {
            return Err(ErrorCode::ArithmeticUnderflow);
        },
    };
    let new_lamports = match collateral.lamports.checked_sub(seize) {
        Some(v) => v,
        None => {
            return Err(ErrorCode::ArithmeticUnderflow);
        },
    };
    collateral.coins = new_coins;
    collateral.lamports = new_lamports;
    Ok(seize)
}

/// A withdrawal that would leave the position below the configured
/// health-factor floor fails with `HealthFactorError` — and so, by
/// `withdraw_burn`'s contract, leaves the balances unchanged.
pub proof fn lemma_withdraw_rejects_unhealthy(
    c: Collateral,
    cfg: Config,
    q: PriceQuote,
    expected_feed: u64,
    now: u64,
    withdraw_amount: u64,
)
    requires
        ({
            let usd = spec_normalized_price(q)->Ok_0;
            let cusd = spec_lamports_to_usd(c.lamports, usd)->Ok_0;
            &&& spec_validate_quote(q, expected_feed, now) is Ok
            &&& spec_normalized_price(q) is Ok
            &&& spec_usd_to_lamports(withdraw_amount, usd) is Ok
            &&& spec_lamports_to_usd(c.lamports, usd) is Ok
            &&& withdraw_amount <= c.coins
            &&& spec_health_factor((c.coins - withdraw_amount) as u64, cusd, cfg.liq_thx) is Ok
            &&& spec_health_factor((c.coins - withdraw_amount) as u64, cusd, cfg.liq_thx)->Ok_0
                < cfg.min_health_factor
        }),
    ensures
        spec_withdraw(c, cfg, q, expected_feed, now, withdraw_amount) == Err::<
            (Collateral, u64),
            ErrorCode,
        >(ErrorCode::HealthFactorError),
{
}

/// Liquidation of a healthy position — one whose health factor at the quoted
/// price is at least one — fails with `HealthFactorError` and so changes
/// nothing.
pub proof fn lemma_liquidate_rejects_healthy(
    c: Collateral,
    cfg: Config,
    q: PriceQuote,
    expected_feed: u64,
    now: u64,
    coin_amount: u64,
)
    requires
        ({
            let usd = spec_normalized_price(q)->Ok_0;
            let cusd = spec_lamports_to_usd(c.lamports, usd)->Ok_0;
            &&& spec_validate_quote(q, expected_feed, now) is Ok
            &&& spec_normalized_price(q) is Ok
            &&& spec_lamports_to_usd(c.lamports, usd) is Ok
            &&& spec_health_factor(c.coins, cusd, cfg.liq_thx) is Ok
            &&& spec_health_factor(c.coins, cusd, cfg.liq_thx)->Ok_0 >= 1
        }),
    ensures
        spec_liquidate(c, cfg, q, expected_feed, now, coin_amount) == Err::<
            (Collateral, u64),
            ErrorCode,
        >(ErrorCode::HealthFactorError),
{
}

/// A liquidation whose seizure — repaid value plus liquidator bonus — exceeds
/// the close-factor cap fails with `MaxLiquidationAmount` and so changes
/// nothing.
pub proof fn lemma_liquidate_rejects_over_cap(
    c: Collateral,
    cfg: Config,
    q: PriceQuote,
    expected_feed: u64,
    now: u64,
    coin_amount: u64,
)
    requires
        ({
            let usd = spec_normalized_price(q)->Ok_0;
            let cusd = spec_lamports_to_usd(c.lamports, usd)->Ok_0;
            let equivalent = spec_usd_to_lamports(coin_amount, usd)->Ok_0;
            let bonus = equivalent * cfg.liq_bonus / (LIQ_BONUS_SCALE as int);
            &&& spec_validate_quote(q, expected_feed, now) is Ok
            &&& spec_normalized_price(q) is Ok
            &&& spec_lamports_to_usd(c.lamports, usd) is Ok
            &&& spec_health_factor(c.coins, cusd, cfg.liq_thx) is Ok
            &&& spec_health_factor(c.coins, cusd, cfg.liq_thx)->Ok_0 < 1
            &&& cfg.close_factor * c.lamports <= u64::MAX
            &&& spec_usd_to_lamports(coin_amount, usd) is Ok
            &&& equivalent * cfg.liq_bonus <= u64::MAX
            &&& equivalent + bonus <= u64::MAX
            &&& equivalent + bonus > spec_max_liquidation_amount(c, cfg)
        }),
    ensures
        spec_liquidate(c, cfg, q, expected_feed, now, coin_amount) == Err::<
            (Collateral, u64),
            ErrorCode,
        >(ErrorCode::MaxLiquidationAmount),
{
}

} // verus!
