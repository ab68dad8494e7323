//! Turning one oracle reading into a cached exchange-rate sample.
//!
//! The oracle reports a price as an integer multiplier with a decimal
//! precision counted on top of the native asset's own precision. The cache
//! stores the rate at the engine's fixed scale instead.
use vstd::prelude::*;

use crate::cache::{RateCache, RateSample, CACHE_CAPACITY};
use crate::decision::{AMOUNT_SCALE, MAX_RATE};
use crate::fixed::{pow10, pow10_u128};
use crate::plan::NEAR_DECIMALS;

verus! {

/// The largest decimal precision an oracle reading may declare.
pub const MAX_ORACLE_DECIMALS: u8 = 54;

/// The rate a reading stands for, at the engine's scale: the multiplier,
/// rescaled by the declared precision net of the native asset's own.
pub open spec fn oracle_rate_of(multiplier: u128, decimals: u8) -> int {
    (multiplier * AMOUNT_SCALE) / pow10((decimals - NEAR_DECIMALS) as nat)
}

/// A reading the engine can take: sane precision, a scaled rate that is
/// positive and within the engine's machine bound.
pub open spec fn oracle_reading_ok(multiplier: u128, decimals: u8) -> bool {
    &&& NEAR_DECIMALS <= decimals <= MAX_ORACLE_DECIMALS
    &&& multiplier * AMOUNT_SCALE <= u128::MAX
    &&& 1 <= oracle_rate_of(multiplier, decimals) <= MAX_RATE
}

/// Rescale one oracle reading to the engine's fixed-point rate.
pub fn oracle_rate_scaled(multiplier: u128, decimals: u8) -> (r: u128)
    requires
        oracle_reading_ok(multiplier, decimals),
    ensures
        r == oracle_rate_of(multiplier, decimals),
{
    let scale = pow10_u128(decimals - NEAR_DECIMALS);
    (multiplier * (AMOUNT_SCALE as u128)) / scale
}

/// Append one oracle reading to the rate cache, rescaled; the oldest sample
/// leaves once the cache is full.
pub fn record_sample(cache: &mut RateCache, timestamp: u64, multiplier: u128, decimals: u8)
    requires
        old(cache).well_formed(),
        oracle_reading_ok(multiplier, decimals),
    ensures
        final(cache).well_formed(),
        old(cache)@.len() < CACHE_CAPACITY ==> final(cache)@ =~= old(cache)@.push(
            RateSample { timestamp, rate: oracle_rate_of(multiplier, decimals) as u128 },
        ),
        old(cache)@.len() == CACHE_CAPACITY ==> final(cache)@ =~= old(cache)@.subrange(
            1,
            CACHE_CAPACITY as int,
        ).push(RateSample { timestamp, rate: oracle_rate_of(multiplier, decimals) as u128 }),
{
    let rate = oracle_rate_scaled(multiplier, decimals);
    cache.append(timestamp, rate);
}

} // verus!
