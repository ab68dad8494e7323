//! Planners sizing the external calls that realize a decision.
//!
//! A plan is data only: raw per-token amounts for the pool, the swap input,
//! and the slippage floor (half of the naive expected output). Driving the
//! calls themselves, and stopping at the first failure, is the saga's part.
use vstd::prelude::*;

use crate::decision::{T_BUY_STEP_MICRO, T_SELL_STEP_MICRO, MAX_RATE};
use crate::fixed::{lemma_pow10_mono, lemma_pow10_values, pow10, pow10_u128};
use crate::pool::{PoolModel, MIN_TOKEN_DECIMALS};

verus! {

/// Decimal precision of the native asset's raw unit.
pub const NEAR_DECIMALS: u8 = 24;

/// Decimal precision of the stablecoin's raw unit.
pub const USN_DECIMALS: u8 = 18;

/// One swap through the fixed swap pool: input amount and the least output
/// accepted, in the raw units of the tokens swapped.
#[derive(Clone, Copy, Debug, PartialEq, Eq, Structural)]
pub struct SwapPlan {
    pub pool_id: u64,
    pub amount_in: u128,
    pub min_amount_out: u128,
}

/// The external calls of a sell, sized: remove liquidity per token, swap the
/// secondary portion into the wrapped native asset, withdraw and burn the
/// stablecoin portion.
#[derive(Debug)]
pub struct SellPlan {
    /// Raw per-token withdrawal request, in pool token order.
    pub remove_amounts: Vec<u128>,
    /// Upper bound on the pool shares the removal may burn: unlimited.
    pub max_burn_shares: u128,
    /// Raw stablecoin amount withdrawn and, on success, burned.
    pub usn_amount: u128,
    /// Secondary asset into wrapped native asset.
    pub swap: SwapPlan,
}

/// The external calls of a buy, sized: wrap native asset, deposit it, swap
/// it into the secondary asset, add that back as liquidity.
#[derive(Clone, Copy, Debug, PartialEq, Eq, Structural)]
pub struct BuyPlan {
    /// Raw native amount to wrap and deposit.
    pub wrap_amount: u128,
    /// Wrapped native asset into secondary asset.
    pub swap: SwapPlan,
}

/// What a sell plan holds for a sell of `amount` micro-units at the newest
/// exchange rate `rate`: each token's withdrawal in its own raw unit, an
/// unlimited share-burn bound on the removal, the stablecoin side marked for
/// burning, and the secondary side swapped with a floor of half the naive
/// output in the wrapped native asset's raw unit.
pub open spec fn sell_plan_matches(
    r: SellPlan,
    pool: PoolModel,
    swap_pool_id: u64,
    amount: u128,
    rate: u128,
) -> bool {
    &&& r.remove_amounts@.len() == 2
    &&& forall|i: int|
        0 <= i < 2 ==> #[trigger] r.remove_amounts@[i] == amount * pow10(
            (pool.decimals@[i] - MIN_TOKEN_DECIMALS) as nat,
        )
    &&& r.max_burn_shares == u128::MAX
    &&& r.usn_amount == r.remove_amounts@[pool.usn_index as int]
    &&& r.swap.pool_id == swap_pool_id
    &&& r.swap.amount_in == r.remove_amounts@[pool.spec_other_index()]
    &&& r.swap.min_amount_out == amount * pow10(NEAR_DECIMALS as nat) / (2 * rate as int)
}

/// What a buy plan holds for a buy of `amount` micro-units at rate `rate`:
/// the native amount is the buy amount divided by the rate, and the swap
/// floor is half the buy amount in the secondary asset's raw unit.
pub open spec fn buy_plan_matches(
    r: BuyPlan,
    swap_pool_id: u64,
    amount: u128,
    rate: u128,
) -> bool {
    &&& r.wrap_amount == amount * pow10(NEAR_DECIMALS as nat) / (rate as int)
    &&& r.swap.pool_id == swap_pool_id
    &&& r.swap.amount_in == r.wrap_amount
    &&& r.swap.min_amount_out == amount as int / 2
}

/// Size the external calls of a sell of `amount` micro-units.
pub fn plan_sell(pool: &PoolModel, swap_pool_id: u64, amount: u128, rate: u128) -> (r: SellPlan)
    requires
        pool.well_formed(),
        amount <= T_SELL_STEP_MICRO,
        1 <= rate <= MAX_RATE,
    ensures
        sell_plan_matches(r, *pool, swap_pool_id, amount, rate),
{
    let mut remove_amounts: Vec<u128> = Vec::new();
    let mut i: usize = 0;
    while i < 2
        invariant
            i <= 2,
            pool.well_formed(),
            amount <= T_SELL_STEP_MICRO,
            remove_amounts@.len() == i,
            forall|j: int|
                0 <= j < i ==> #[trigger] remove_amounts@[j] == amount * pow10(
                    (pool.decimals@[j] - MIN_TOKEN_DECIMALS) as nat,
                ),
        decreases 2 - i,
    {
        let scale = pow10_u128(pool.decimals[i] - MIN_TOKEN_DECIMALS);
        proof {
            lemma_pow10_mono((pool.decimals@[i as int] - MIN_TOKEN_DECIMALS) as nat, 24nat);
            lemma_pow10_values();
            assert(amount * scale <= T_SELL_STEP_MICRO * 1_000_000_000_000_000_000_000_000)
                by (nonlinear_arith)
                requires
                    amount <= T_SELL_STEP_MICRO,
                    scale <= 1_000_000_000_000_000_000_000_000,
            ;
        }
        remove_amounts.push(amount * scale);
        i = i + 1;
    }
    let usn_amount = remove_amounts[pool.usn_index];
    let swap_in = remove_amounts[1 - pool.usn_index];
    proof {
        lemma_pow10_values();
    }
    let min_out = amount * 1_000_000_000_000_000_000_000_000u128 / (2 * rate);
    SellPlan {
        remove_amounts,
        max_burn_shares: u128::MAX,
        usn_amount,
        swap: SwapPlan { pool_id: swap_pool_id, amount_in: swap_in, min_amount_out: min_out },
    }
}

/// Size the external calls of a buy of `amount` micro-units.
pub fn plan_buy(swap_pool_id: u64, amount: u128, rate: u128) -> (r: BuyPlan)
    requires
        amount <= T_BUY_STEP_MICRO,
        1 <= rate <= MAX_RATE,
    ensures
        buy_plan_matches(r, swap_pool_id, amount, rate),
{
    proof {
        lemma_pow10_values();
    }
    let wrap_amount = amount * 1_000_000_000_000_000_000_000_000u128 / rate;
    let min_out = amount / 2;
    BuyPlan {
        wrap_amount,
        swap: SwapPlan { pool_id: swap_pool_id, amount_in: wrap_amount, min_amount_out: min_out },
    }
}

} // verus!
