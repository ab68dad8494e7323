//! One balancing attempt, from raw external reads to a sized plan.
//!
//! The attempt validates the request, gathers the reserve snapshot from the
//! pool reads and the ledger figures, runs the decision engine, and sizes
//! the plan of the chosen path. The caller performs the external calls and
//! feeds their outcomes to the saga.
use vstd::prelude::*;

use crate::cache::{RateCache, CACHE_CAPACITY};
use crate::decision::{
    decide, decide_spec, TreasuryDecision, MAX_AMOUNT_MICRO, MAX_NEAR_MICRO, MAX_SIGNAL,
};
use crate::fixed::{lemma_pow10_pos, lemma_pow10_values, pow10, pow10_u128};
use crate::plan::{
    buy_plan_matches, plan_buy, plan_sell, sell_plan_matches, BuyPlan, SellPlan, NEAR_DECIMALS,
    USN_DECIMALS,
};
use crate::pool::{extract_amount, Extract, PoolModel, MIN_TOKEN_DECIMALS};
use crate::rng::{rng_draw, seeded_draw};
use crate::TreasuryError;

verus! {

/// The three reserve quantities a decision reads, in micro-units.
#[derive(Clone, Copy, Debug, PartialEq, Eq, Structural)]
pub struct ReserveSnapshot {
    /// Native volatile asset held directly.
    pub near_micro: u128,
    /// Stablecoin supply net of the portion locked in the pool.
    pub usn_micro: u128,
    /// Secondary stable asset recoverable from the pool.
    pub usdt_micro: u128,
}

/// The sized external calls of the chosen path, or nothing.
pub enum PlannedAction {
    Nothing,
    Sell(SellPlan),
    Buy(BuyPlan),
}

/// What one attempt produced: the snapshot it read, the decision taken, and
/// the plan where execution was requested.
pub struct BalancingOutcome {
    pub snapshot: ReserveSnapshot,
    pub decision: TreasuryDecision,
    pub action: PlannedAction,
}

/// Native reserve in micro-units: the account balance net of the deposit
/// attached to the call itself, rescaled from raw units.
pub open spec fn near_micro_of(balance_yocto: u128, attached_yocto: u128) -> int {
    (balance_yocto - attached_yocto) / pow10((NEAR_DECIMALS - MIN_TOKEN_DECIMALS) as nat)
}

/// Circulating stablecoin in micro-units: the total supply net of the
/// pool-held portion, rescaled from raw units.
pub open spec fn usn_micro_of(total_supply_raw: u128, pool_usn_raw: u128) -> int {
    (total_supply_raw - pool_usn_raw) / pow10((USN_DECIMALS - MIN_TOKEN_DECIMALS) as nat)
}

/// Secondary reserve in micro-units, rescaled from the token's raw units.
pub open spec fn usdt_micro_of(usdt_raw: u128, decimals: u8) -> int {
    usdt_raw as int / pow10((decimals - MIN_TOKEN_DECIMALS) as nat)
}

/// Both pool reads name exactly two tokens.
pub open spec fn pool_shape_ok(predicted: Seq<u128>, pool_amounts: Seq<u128>) -> bool {
    predicted.len() == 2 && pool_amounts.len() == 2
}

/// The snapshot holds exactly the three rescaled quantities of the reads.
pub open spec fn snapshot_matches(
    r: ReserveSnapshot,
    pool: PoolModel,
    predicted: Seq<u128>,
    pool_amounts: Seq<u128>,
    total_supply_raw: u128,
    balance_yocto: u128,
    attached_yocto: u128,
) -> bool {
    &&& r.near_micro == near_micro_of(balance_yocto, attached_yocto)
    &&& r.usn_micro == usn_micro_of(total_supply_raw, pool_amounts[pool.usn_index as int])
    &&& r.usdt_micro == usdt_micro_of(
        predicted[pool.spec_other_index()],
        pool.decimals@[pool.spec_other_index()],
    )
}

/// The caller cap in micro-units, where one was given in whole tokens.
pub open spec fn limit_micro_of(limit: Option<u64>) -> Option<u128> {
    match limit {
        None => None,
        Some(l) => Some((l * 1_000_000) as u128),
    }
}

/// Gather the reserve snapshot out of the two pool reads and the two local
/// figures. Fails when either read does not name exactly two tokens.
pub fn collect_snapshot(
    pool: &PoolModel,
    predicted_amounts: &Vec<u128>,
    pool_amounts: &Vec<u128>,
    total_supply_raw: u128,
    balance_yocto: u128,
    attached_yocto: u128,
) -> (r: Result<ReserveSnapshot, TreasuryError>)
    requires
        pool.well_formed(),
        attached_yocto <= balance_yocto,
        pool_amounts@.len() == 2 ==> pool_amounts@[pool.usn_index as int] <= total_supply_raw,
    ensures
        !pool_shape_ok(predicted_amounts@, pool_amounts@) ==> r == Err::<
            ReserveSnapshot,
            TreasuryError,
        >(TreasuryError::InvalidPoolShape),
        pool_shape_ok(predicted_amounts@, pool_amounts@) ==> (r matches Ok(s)
            && snapshot_matches(
            s,
            *pool,
            predicted_amounts@,
            pool_amounts@,
            total_supply_raw,
            balance_yocto,
            attached_yocto,
        )),
{
    if predicted_amounts.len() != 2 || pool_amounts.len() != 2 {
        return Err(TreasuryError::InvalidPoolShape);
    }
    let near_raw = balance_yocto - attached_yocto;
    let near_micro = near_raw / pow10_u128(NEAR_DECIMALS - MIN_TOKEN_DECIMALS);
    let pool_usn_raw = extract_amount(pool, pool_amounts, Extract::Usn);
    let usn_micro = (total_supply_raw - pool_usn_raw) / pow10_u128(
        USN_DECIMALS - MIN_TOKEN_DECIMALS,
    );
    let usdt_raw = extract_amount(pool, predicted_amounts, Extract::Other);
    let usdt_micro = usdt_raw / pow10_u128(pool.decimals[1 - pool.usn_index] - MIN_TOKEN_DECIMALS);
    Ok(ReserveSnapshot { near_micro, usn_micro, usdt_micro })
}

/// Run one balancing attempt up to its plan.
///
/// `predicted_amounts` is the pool's per-token valuation of the treasury's
/// shares, `pool_amounts` its per-token held amounts, both in raw units;
/// `signal` the trend fit's curvature over the cached samples; `limit` the
/// optional cap in whole tokens. With `execute` false the attempt stops at
/// the decision. The bounds on the reads are machine limits, far above any
/// real reserve.
pub fn start_balancing(
    cache: &RateCache,
    now: u64,
    pool: &PoolModel,
    swap_pool_id: u64,
    predicted_amounts: &Vec<u128>,
    pool_amounts: &Vec<u128>,
    total_supply_raw: u128,
    balance_yocto: u128,
    attached_yocto: u128,
    signal: i64,
    limit: Option<u64>,
    execute: bool,
) -> (r: Result<BalancingOutcome, TreasuryError>)
    requires
        cache.well_formed(),
        pool.well_formed(),
        attached_yocto <= balance_yocto,
        pool_amounts@.len() == 2 ==> pool_amounts@[pool.usn_index as int] <= total_supply_raw,
        forall|i: int|
            0 <= i < predicted_amounts@.len() ==> #[trigger] predicted_amounts@[i]
                <= MAX_AMOUNT_MICRO,
        -MAX_SIGNAL <= signal <= MAX_SIGNAL,
    ensures
        !pool_shape_ok(predicted_amounts@, pool_amounts@) ==> r == Err::<
            BalancingOutcome,
            TreasuryError,
        >(TreasuryError::InvalidPoolShape),
        pool_shape_ok(predicted_amounts@, pool_amounts@) && cache@.len() < CACHE_CAPACITY ==> r
            == Err::<BalancingOutcome, TreasuryError>(TreasuryError::NotWarmedUp),
        pool_shape_ok(predicted_amounts@, pool_amounts@) && cache@.len() == CACHE_CAPACITY ==> (
        r matches Ok(out) && {
            let rate = cache@[7].rate;
            &&& snapshot_matches(
                out.snapshot,
                *pool,
                predicted_amounts@,
                pool_amounts@,
                total_supply_raw,
                balance_yocto,
                attached_yocto,
            )
            &&& out.decision == decide_spec(
                rate,
                out.snapshot.near_micro,
                out.snapshot.usn_micro,
                out.snapshot.usdt_micro,
                signal as int,
                limit_micro_of(limit),
            )
            &&& !execute ==> out.action is Nothing
            &&& execute ==> match out.decision {
                TreasuryDecision::DoNothing => out.action is Nothing,
                TreasuryDecision::Sell(a) => out.action matches PlannedAction::Sell(p)
                    && sell_plan_matches(p, *pool, swap_pool_id, a, rate),
                TreasuryDecision::Buy(a) => out.action matches PlannedAction::Buy(p)
                    && buy_plan_matches(p, swap_pool_id, a, rate),
            }
        }),
{
    let snapshot = match collect_snapshot(
        pool,
        predicted_amounts,
        pool_amounts,
        total_supply_raw,
        balance_yocto,
        attached_yocto,
    ) {
        Ok(s) => s,
        Err(e) => {
            return Err(e);
        },
    };
    let (times, rates) = match cache.collect(now) {
        Ok(tr) => tr,
        Err(e) => {
            return Err(e);
        },
    };
    proof {
        lemma_pow10_values();
        vstd::arithmetic::div_mod::lemma_multiply_divide_le(
            (balance_yocto - attached_yocto) as int,
            1_000_000_000_000_000_000,
            MAX_NEAR_MICRO as int,
        );
        vstd::arithmetic::div_mod::lemma_multiply_divide_le(
            (total_supply_raw - pool_amounts@[pool.usn_index as int]) as int,
            1_000_000_000_000,
            MAX_AMOUNT_MICRO as int,
        );
        lemma_pow10_pos((pool.decimals@[pool.spec_other_index()] - MIN_TOKEN_DECIMALS) as nat);
        vstd::arithmetic::div_mod::lemma_div_nonincreasing(
            predicted_amounts@[pool.spec_other_index()] as int,
            pow10((pool.decimals@[pool.spec_other_index()] - MIN_TOKEN_DECIMALS) as nat),
        );
    }
    let rate = rates[7];
    let limit_micro: Option<u128> = match limit {
        None => None,
        Some(l) => Some(l as u128 * 1_000_000),
    };
    let decision = decide(
        &rates,
        &times,
        snapshot.near_micro,
        snapshot.usn_micro,
        snapshot.usdt_micro,
        signal,
        limit_micro,
    );
    let action = if !execute {
        PlannedAction::Nothing
    } else {
        match decision {
            TreasuryDecision::DoNothing => PlannedAction::Nothing,
            TreasuryDecision::Sell(a) => PlannedAction::Sell(plan_sell(pool, swap_pool_id, a, rate)),
            TreasuryDecision::Buy(a) => PlannedAction::Buy(plan_buy(swap_pool_id, a, rate)),
        }
    };
    Ok(BalancingOutcome { snapshot, decision, action })
}

/// Draw the optional decision cap out of the caller's range, using the
/// attempt's randomness seed. Rejects a range whose minimum is above its
/// maximum before anything else happens. The drawn cap is a function of the
/// seed and the range alone: one attempt's seed fixes it.
pub fn choose_cap(seed: [u8; 32], limits: Option<(u64, u64)>) -> (r: Result<
    Option<u64>,
    TreasuryError,
>)
    ensures
        limits is None ==> r == Ok::<Option<u64>, TreasuryError>(None),
        (limits matches Some(l) && l.0 > l.1) ==> r == Err::<Option<u64>, TreasuryError>(
            TreasuryError::InvalidRange,
        ),
        limits matches Some(l) ==> l.0 == l.1 ==> r == Ok::<Option<u64>, TreasuryError>(
            Some(l.0),
        ),
        limits matches Some(l) ==> l.0 < l.1 ==> r == Ok::<Option<u64>, TreasuryError>(
            Some(seeded_draw(seed@, l.0, l.1)),
        ),
        limits matches Some(l) ==> l.0 <= l.1 ==> (r matches Ok(c) && c matches Some(v) && l.0
            <= v <= l.1),
{
    match limits {
        None => Ok(None),
        Some((min, max)) => {
            if min > max {
                Err(TreasuryError::InvalidRange)
            } else if min == max {
                Ok(Some(min))
            } else {
                let v = rng_draw(seed, min, max);
                Ok(Some(v))
            }
        },
    }
}

/// Validate one balancing request before any external call: the cap range
/// must be well formed and the cache warmed up. Returns the drawn cap.
pub fn validate_balancing_request(
    cache: &RateCache,
    seed: [u8; 32],
    limits: Option<(u64, u64)>,
) -> (r: Result<Option<u64>, TreasuryError>)
    requires
        cache.well_formed(),
    ensures
        (limits matches Some(l) && l.0 > l.1) ==> r == Err::<Option<u64>, TreasuryError>(
            TreasuryError::InvalidRange,
        ),
        (limits matches Some(l) ==> l.0 <= l.1) && cache@.len() < CACHE_CAPACITY ==> r == Err::<
            Option<u64>,
            TreasuryError,
        >(TreasuryError::NotWarmedUp),
        limits is None && cache@.len() == CACHE_CAPACITY ==> r == Ok::<Option<u64>, TreasuryError>(
            None,
        ),
        limits matches Some(l) ==> l.0 <= l.1 && cache@.len() == CACHE_CAPACITY ==> (r matches Ok(
            c,
        ) && c matches Some(v) && l.0 <= v <= l.1),
        limits matches Some(l) ==> l.0 == l.1 && cache@.len() == CACHE_CAPACITY ==> r == Ok::<
            Option<u64>,
            TreasuryError,
        >(Some(l.0)),
        limits matches Some(l) ==> l.0 < l.1 && cache@.len() == CACHE_CAPACITY ==> r == Ok::<
            Option<u64>,
            TreasuryError,
        >(Some(seeded_draw(seed@, l.0, l.1))),
{
    let cap = match choose_cap(seed, limits) {
        Ok(c) => c,
        Err(e) => {
            return Err(e);
        },
    };
    if cache.len() < CACHE_CAPACITY {
        return Err(TreasuryError::NotWarmedUp);
    }
    Ok(cap)
}

} // verus!
