use vstd::prelude::*;

use crate::error::ErrorCode;

verus! {

/// An oracle price observation: `mantissa * 10^exponent` USD per whole unit
/// of the collateral asset, observed at `observed_at` (seconds). Ephemeral:
/// fetched once per operation and never persisted.
#[derive(Clone, Copy, Debug, PartialEq, Eq)]
pub struct PriceQuote {
    /// Identifier of the feed the quote was read from.
    pub feed_id: u64,
    /// Signed price mantissa as the oracle reports it.
    pub mantissa: i64,
    /// Decimal exponent applied to the mantissa.
    pub exponent: i32,
    /// Seconds timestamp of the observation.
    pub observed_at: u64,
}

/// The one freshness bound, in seconds, applied by every operation: a quote
/// older than this is rejected as stale.
pub const MAX_PRICE_AGE_SECS: u64 = 60;

/// `10^e`.
pub open spec fn pow10(e: nat) -> int
    decreases e,
{
    if e == 0 {
        1
    } else {
        10 * pow10((e - 1) as nat)
    }
}

/// Integer division truncated toward zero (the behaviour of machine signed
/// division), for a positive divisor.
pub open spec fn div_toward_zero(m: int, d: int) -> int {
    if m >= 0 {
        m / d
    } else {
        -((-m) / d)
    }
}

/// The canonical integer USD-per-unit price of a quote: the mantissa scaled
/// by `10^exponent`, truncating toward zero when the exponent is negative.
pub open spec fn spec_normalize(mantissa: int, exponent: int) -> int {
    if exponent < 0 {
        div_toward_zero(mantissa, pow10((-exponent) as nat))
    } else {
        mantissa * pow10(exponent as nat)
    }
}

pub proof fn lemma_pow10_pos(e: nat)
    ensures
        pow10(e) >= 1,
    decreases e,
{
    if e > 0 {
        lemma_pow10_pos((e - 1) as nat);
    }
}

pub proof fn lemma_pow10_mono(a: nat, b: nat)
    requires
        a <= b,
    ensures
        pow10(a) <= pow10(b),
    decreases b,
{
    if a < b {
        lemma_pow10_mono(a, (b - 1) as nat);
        lemma_pow10_pos((b - 1) as nat);
    }
}

pub proof fn lemma_pow10_values()
    ensures
        pow10(19) == 10_000_000_000_000_000_000,
        pow10(20) == 100_000_000_000_000_000_000,
        pow10(38) == 100_000_000_000_000_000_000_000_000_000_000_000_000,
{
    reveal_with_fuel(pow10, 40);
    assert(pow10(10) == 10_000_000_000);
    assert(pow10(19) == 10_000_000_000_000_000_000);
    assert(pow10(20) == 100_000_000_000_000_000_000);
    assert(pow10(29) == 100_000_000_000_000_000_000_000_000_000);
    assert(pow10(38) == 100_000_000_000_000_000_000_000_000_000_000_000_000);
}

/// `10^e` as a machine integer.
fn pow10_i128(e: u32) -> (r: i128)
    requires
        e <= 38,
    ensures
        r == pow10(e as nat),
{
    proof {
        lemma_pow10_values();
    }
    let mut r: i128 = 1;
    let mut i: u32 = 0;
    while i < e
        invariant
            i <= e,
            e <= 38,
            r == pow10(i as nat),
            pow10(38) == 100_000_000_000_000_000_000_000_000_000_000_000_000,
        decreases e - i,
    {
        proof {
            lemma_pow10_mono((i + 1) as nat, 38nat);
            lemma_pow10_pos(i as nat);
            assert(pow10((i + 1) as nat) == 10 * pow10(i as nat));
        }
        r = r * 10;
        i = i + 1;
    }
    r
}

/// The canonical integer USD-per-unit price of an oracle pair: divides the
/// mantissa by `10^(-exponent)` (truncating toward zero) for a negative
/// exponent, multiplies by `10^exponent` otherwise. Callers must bound a
/// non-negative exponent so that the scaled mantissa fits the working width.
pub fn integer_usd_from_pyth(price_raw: i64, expo: i32) -> (r: i128)
    requires
        expo >= 0 ==> expo <= 38 && i128::MIN <= price_raw * pow10(expo as nat) <= i128::MAX,
    ensures
        r == spec_normalize(price_raw as int, expo as int),
{
    let p: i128 = price_raw as i128;
    if expo < 0 {
        let k: i64 = -(expo as i64);
        if k >= 19 {
            proof {
                lemma_pow10_values();
                lemma_pow10_mono(19nat, k as nat);
                let d = pow10(k as nat);
                assert(div_toward_zero(p as int, d) == 0) by {
                    if p >= 0 {
                        vstd::arithmetic::div_mod::lemma_basic_div(p as int, d);
                    } else {
                        vstd::arithmetic::div_mod::lemma_basic_div(-(p as int), d);
                    }
                }
            }
            0
        } else {
            let denom = pow10_i128(k as u32);
            proof {
                lemma_pow10_pos(k as nat);
                lemma_pow10_values();
                lemma_pow10_mono(k as nat, 19nat);
                if p >= 0 {
                    vstd::arithmetic::div_mod::lemma_div_pos_is_pos(p as int, denom as int);
                    vstd::arithmetic::div_mod::lemma_div_nonincreasing(p as int, denom as int);
                } else {
                    vstd::arithmetic::div_mod::lemma_div_pos_is_pos(-(p as int), denom as int);
                    vstd::arithmetic::div_mod::lemma_div_nonincreasing(-(p as int), denom as int);
                }
            }
            p.checked_div(denom).unwrap()
        }
    } else {
        let mul = pow10_i128(expo as u32);
        p * mul
    }
}

/// Whether a quote may be used: it must come from the expected feed and be no
/// older than `MAX_PRICE_AGE_SECS`. A quote timestamped at or after `now` is
/// treated as fresh.
pub open spec fn spec_validate_quote(q: PriceQuote, expected_feed: u64, now: u64) -> Result<
    (),
    ErrorCode,
> {
    if q.feed_id != expected_feed {
        Err(ErrorCode::OracleFeedMismatch)
    } else if q.observed_at + MAX_PRICE_AGE_SECS < now {
        Err(ErrorCode::StalePrice)
    } else {
        Ok(())
    }
}

/// Rejects a quote from the wrong feed or older than the freshness bound.
pub fn validate_quote(quote: &PriceQuote, expected_feed: u64, now: u64) -> (r: Result<
    (),
    ErrorCode,
>)
    ensures
        r == spec_validate_quote(*quote, expected_feed, now),
{
    if quote.feed_id != expected_feed {
        Err(ErrorCode::OracleFeedMismatch)
    } else if quote.observed_at < now && now - quote.observed_at > MAX_PRICE_AGE_SECS {
        Err(ErrorCode::StalePrice)
    } else {
        Ok(())
    }
}

/// The normalized price of a quote as an unsigned machine word: the exact
/// scaled mantissa when it lies in `0 ..= u64::MAX`, an arithmetic fault
/// otherwise (a negative price goes below zero, a too-large one above the
/// working width).
pub open spec fn spec_normalized_price(q: PriceQuote) -> Result<u64, ErrorCode> {
    let v = spec_normalize(q.mantissa as int, q.exponent as int);
    if v < 0 {
        Err(ErrorCode::ArithmeticUnderflow)
    } else if v > u64::MAX {
        Err(ErrorCode::ArithmeticOverflow)
    } else {
        Ok(v as u64)
    }
}

/// Normalizes a quote to a `u64` USD-per-unit price, rejecting any quote
/// whose scaled mantissa falls outside `0 ..= u64::MAX`.
pub fn normalized_price(quote: &PriceQuote) -> (r: Result<u64, ErrorCode>)
    ensures
        r == spec_normalized_price(*quote),
{
    proof {
        lemma_pow10_values();
    }
    if quote.exponent >= 20 {
        // 10^exponent already exceeds u64::MAX, so any nonzero mantissa is
        // out of range and a zero mantissa normalizes to zero.
        proof {
            lemma_pow10_mono(20nat, quote.exponent as nat);
            let pw = pow10(quote.exponent as nat);
            if quote.mantissa > 0 {
                assert(quote.mantissa * pw >= pw) by (nonlinear_arith)
                    requires
                        quote.mantissa >= 1,
                        pw >= 1,
                ;
            }
            if quote.mantissa < 0 {
                assert(quote.mantissa * pw <= -pw) by (nonlinear_arith)
                    requires
                        quote.mantissa <= -1,
                        pw >= 1,
                ;
            }
        }
        if quote.mantissa == 0 {
            Ok(0)
        } else if quote.mantissa > 0 {
            Err(ErrorCode::ArithmeticOverflow)
        } else {
            Err(ErrorCode::ArithmeticUnderflow)
        }
    } else {
        proof {
            if quote.exponent >= 0 {
                let pw = pow10(quote.exponent as nat);
                lemma_pow10_pos(quote.exponent as nat);
                lemma_pow10_mono(quote.exponent as nat, 19nat);
                assert(i128::MIN <= quote.mantissa * pw <= i128::MAX) by (nonlinear_arith)
                    requires
                        -10_000_000_000_000_000_000 <= quote.mantissa
                            <= 10_000_000_000_000_000_000,
                        1 <= pw <= 10_000_000_000_000_000_000,
                ;
            }
        }
        let v = integer_usd_from_pyth(quote.mantissa, quote.exponent);
        if v < 0 {
            Err(ErrorCode::ArithmeticUnderflow)
        } else if v > u64::MAX as i128 {
            Err(ErrorCode::ArithmeticOverflow)
        } else {
            Ok(v as u64)
        }
    }
}

} // verus!
