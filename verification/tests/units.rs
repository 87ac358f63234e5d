use stable_coin::convert::{lamports_to_usd, usd_to_lamports, LAMPORTS_PER_UNIT};
use stable_coin::error::ErrorCode;
use stable_coin::price::{
    integer_usd_from_pyth, normalized_price, validate_quote, PriceQuote, MAX_PRICE_AGE_SECS,
};
use stable_coin::risk::calculate_health_factor;
use stable_coin::state::{process_config, Collateral, Config};

fn quote(mantissa: i64, exponent: i32, observed_at: u64) -> PriceQuote {
    PriceQuote { feed_id: 7, mantissa, exponent, observed_at }
}

#[test]
fn normalize_negative_exponent_floors() {
    assert_eq!(integer_usd_from_pyth(25_00000000, -8), 25);
    assert_eq!(integer_usd_from_pyth(199, -2), 1);
    assert_eq!(integer_usd_from_pyth(99, -2), 0);
}

#[test]
fn normalize_positive_exponent_multiplies() {
    assert_eq!(integer_usd_from_pyth(3, 2), 300);
    assert_eq!(integer_usd_from_pyth(25, 0), 25);
}

#[test]
fn normalize_negative_mantissa_truncates_toward_zero() {
    assert_eq!(integer_usd_from_pyth(-2500, -2), -25);
    assert_eq!(integer_usd_from_pyth(-199, -2), -1);
}

#[test]
fn normalize_huge_negative_exponent_is_zero() {
    assert_eq!(integer_usd_from_pyth(i64::MAX, -40), 0);
    assert_eq!(integer_usd_from_pyth(12345, -19), 0);
}

#[test]
fn normalized_price_of_oracle_pair() {
    assert_eq!(normalized_price(&quote(25_00000000, -8, 0)), Ok(25));
    assert_eq!(normalized_price(&quote(31_415, -3, 0)), Ok(31));
}

#[test]
fn normalized_price_rejects_negative() {
    assert_eq!(
        normalized_price(&quote(-25_00000000, -8, 0)),
        Err(ErrorCode::ArithmeticUnderflow)
    );
}

#[test]
fn normalized_price_rejects_too_large() {
    assert_eq!(normalized_price(&quote(2, 19, 0)), Err(ErrorCode::ArithmeticOverflow));
    assert_eq!(normalized_price(&quote(1, 30, 0)), Err(ErrorCode::ArithmeticOverflow));
}

#[test]
fn normalized_price_zero_mantissa_large_exponent() {
    assert_eq!(normalized_price(&quote(0, 30, 0)), Ok(0));
}

#[test]
fn quote_freshness() {
    let now = 1_000_000;
    assert_eq!(validate_quote(&quote(1, 0, now - MAX_PRICE_AGE_SECS), 7, now), Ok(()));
    assert_eq!(
        validate_quote(&quote(1, 0, now - MAX_PRICE_AGE_SECS - 1), 7, now),
        Err(ErrorCode::StalePrice)
    );
    // a quote timestamped after `now` is treated as fresh
    assert_eq!(validate_quote(&quote(1, 0, now + 5), 7, now), Ok(()));
}

#[test]
fn quote_feed_must_match() {
    assert_eq!(validate_quote(&quote(1, 0, 10), 8, 10), Err(ErrorCode::OracleFeedMismatch));
}

#[test]
fn collateral_to_debt_units_floors() {
    assert_eq!(lamports_to_usd(2_000_000_000, 25), Ok(50));
    assert_eq!(lamports_to_usd(1_999_999_999, 25), Ok(49));
    assert_eq!(lamports_to_usd(0, 25), Ok(0));
}

#[test]
fn collateral_to_debt_units_overflow() {
    assert_eq!(lamports_to_usd(u64::MAX, 2), Err(ErrorCode::ArithmeticOverflow));
}

#[test]
fn debt_units_to_collateral_floors() {
    assert_eq!(usd_to_lamports(50, 25), Ok(2_000_000_000));
    assert_eq!(usd_to_lamports(1, 3), Ok(333_333_333));
}

#[test]
fn debt_units_to_collateral_zero_price() {
    assert_eq!(usd_to_lamports(1, 0), Err(ErrorCode::DivisionByZero));
}

#[test]
fn debt_units_to_collateral_overflow() {
    assert_eq!(usd_to_lamports(u64::MAX, 1), Err(ErrorCode::ArithmeticOverflow));
}

#[test]
fn round_trip_never_creates_value() {
    for (x, p) in [(2_000_000_000u64, 25u64), (1_999_999_999, 25), (7, 3), (123_456_789, 17)] {
        let value = lamports_to_usd(x, p).unwrap();
        let back = usd_to_lamports(value, p).unwrap();
        assert!(back <= x);
    }
}

#[test]
fn health_factor_debt_free_is_max() {
    assert_eq!(calculate_health_factor(0, 0, 0), Ok(u64::MAX));
    assert_eq!(calculate_health_factor(0, 123, 5000), Ok(u64::MAX));
}

#[test]
fn health_factor_formula() {
    // floor(25 * 5000 / 30 / 10000) == 0
    assert_eq!(calculate_health_factor(30, 25, 5000), Ok(0));
    // floor(1000 * 5000 / 40 / 10000) == 12
    assert_eq!(calculate_health_factor(40, 1000, 5000), Ok(12));
}

#[test]
fn health_factor_overflow_is_an_error() {
    assert_eq!(calculate_health_factor(1, u64::MAX, 2), Err(ErrorCode::ArithmeticOverflow));
}

#[test]
fn config_creation_records_parameters() {
    let cfg = process_config(11, 22, 5000, 10_000, 1, 5000, 3, 4);
    assert_eq!(
        cfg,
        Config {
            authority: 11,
            mint_address: 22,
            liq_thx: 5000,
            liq_bonus: 10_000,
            min_health_factor: 1,
            close_factor: 5000,
            bump: 3,
            bump_mint_acc: 4,
        }
    );
}

#[test]
fn new_collateral_record_is_empty() {
    let c = Collateral::new(9, 8, 7, 1, 2);
    assert!(c.is_initialized);
    assert_eq!(c.lamports, 0);
    assert_eq!(c.coins, 0);
    assert_eq!(c.depositer, 9);
    assert_eq!(c.sol_account, 8);
    assert_eq!(c.coin_token_account, 7);
}

#[test]
fn error_descriptions_are_stable() {
    assert_eq!(ErrorCode::HealthFactorError.describe(), "account not healthy");
    assert_eq!(
        ErrorCode::MaxLiquidationAmount.describe(),
        "cannot liquidate more than the close factor"
    );
    assert_eq!(ErrorCode::StalePrice.describe(), "stale price");
}

#[test]
fn lamports_scale_is_one_billion() {
    assert_eq!(LAMPORTS_PER_UNIT, 1_000_000_000);
}
