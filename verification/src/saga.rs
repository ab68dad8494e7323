//! The execution saga: the ordered external steps of one attempt.
//!
//! Each step's outcome decides whether the chain goes on; a failed step
//! halts the attempt with no retry and no compensation. The final burn of
//! the withdrawn stablecoin is gated on the step just before it.
use vstd::prelude::*;

verus! {

/// Where one balancing attempt stands.
#[derive(Clone, Copy, Debug, PartialEq, Eq, Structural)]
pub enum AttemptPhase {
    /// Gathering the reserve snapshot and the rate series.
    Collecting,
    /// Running the decision engine.
    Deciding,
    /// Decision logged, execution not requested.
    Idle,
    /// Walking the chosen path's external steps.
    Executing,
    /// Attempt over, successful or halted.
    Done,
}

/// The phase after one advance: a failed read aborts the attempt before any
/// effect; a decision leads into execution only where it was requested.
pub open spec fn attempt_step(p: AttemptPhase, ok: bool, execute: bool) -> AttemptPhase {
    match p {
        AttemptPhase::Collecting => if ok {
            AttemptPhase::Deciding
        } else {
            AttemptPhase::Done
        },
        AttemptPhase::Deciding => if execute {
            AttemptPhase::Executing
        } else {
            AttemptPhase::Idle
        },
        AttemptPhase::Idle => AttemptPhase::Done,
        AttemptPhase::Executing => AttemptPhase::Done,
        AttemptPhase::Done => AttemptPhase::Done,
    }
}

/// Advance one attempt's phase on the outcome of its current stage.
pub fn next_phase(p: AttemptPhase, ok: bool, execute: bool) -> (r: AttemptPhase)
    ensures
        r == attempt_step(p, ok, execute),
        p == AttemptPhase::Collecting && !ok ==> r == AttemptPhase::Done,
{
    match p {
        AttemptPhase::Collecting => if ok {
            AttemptPhase::Deciding
        } else {
            AttemptPhase::Done
        },
        AttemptPhase::Deciding => if execute {
            AttemptPhase::Executing
        } else {
            AttemptPhase::Idle
        },
        AttemptPhase::Idle => AttemptPhase::Done,
        AttemptPhase::Executing => AttemptPhase::Done,
        AttemptPhase::Done => AttemptPhase::Done,
    }
}

/// The external steps of the sell path, in execution order.
#[derive(Clone, Copy, Debug, PartialEq, Eq, Structural)]
pub enum SellStep {
    /// Withdraw liquidity from the pool per the sized request.
    RemoveLiquidity,
    /// Swap the secondary portion into the wrapped native asset.
    SwapToWrap,
    /// Withdraw the wrapped asset from the pool's deposit account.
    WithdrawWrap,
    /// Unwrap the wrapped asset back to its native form.
    UnwrapNear,
    /// Withdraw the stablecoin portion from the pool.
    WithdrawUsn,
    /// Burn the withdrawn stablecoin from the local ledger.
    Burn,
}

/// The external steps of the buy path, in execution order.
#[derive(Clone, Copy, Debug, PartialEq, Eq, Structural)]
pub enum BuyStep {
    /// Wrap the sized native amount.
    WrapNear,
    /// Deposit the wrapped asset with the pool.
    DepositWrap,
    /// Swap the wrapped asset into the secondary asset.
    SwapToStable,
    /// Add the swapped amount back as one-sided liquidity.
    AddLiquidity,
}

/// Position of a sell step in the chain.
pub open spec fn sell_index(s: SellStep) -> int {
    match s {
        SellStep::RemoveLiquidity => 0,
        SellStep::SwapToWrap => 1,
        SellStep::WithdrawWrap => 2,
        SellStep::UnwrapNear => 3,
        SellStep::WithdrawUsn => 4,
        SellStep::Burn => 5,
    }
}

/// The step after `s` when its outcome was `ok`; `None` when the attempt is
/// over, be it done or halted by a failure.
pub open spec fn advance_sell(s: SellStep, ok: bool) -> Option<SellStep> {
    if !ok {
        None
    } else {
        match s {
            SellStep::RemoveLiquidity => Some(SellStep::SwapToWrap),
            SellStep::SwapToWrap => Some(SellStep::WithdrawWrap),
            SellStep::WithdrawWrap => Some(SellStep::UnwrapNear),
            SellStep::UnwrapNear => Some(SellStep::WithdrawUsn),
            SellStep::WithdrawUsn => Some(SellStep::Burn),
            SellStep::Burn => None,
        }
    }
}

/// The step after `s` on the buy path.
pub open spec fn advance_buy(s: BuyStep, ok: bool) -> Option<BuyStep> {
    if !ok {
        None
    } else {
        match s {
            BuyStep::WrapNear => Some(BuyStep::DepositWrap),
            BuyStep::DepositWrap => Some(BuyStep::SwapToStable),
            BuyStep::SwapToStable => Some(BuyStep::AddLiquidity),
            BuyStep::AddLiquidity => None,
        }
    }
}

/// Where the sell path stands after the given step outcomes, oldest first;
/// `None` once the attempt is over.
pub open spec fn sell_state_after(outcomes: Seq<bool>) -> Option<SellStep>
    decreases outcomes.len(),
{
    if outcomes.len() == 0 {
        Some(SellStep::RemoveLiquidity)
    } else {
        match sell_state_after(outcomes.drop_last()) {
            Some(s) => advance_sell(s, outcomes.last()),
            None => None,
        }
    }
}

/// The burn step is reached after some prefix of the outcomes.
pub open spec fn burn_reached(outcomes: Seq<bool>) -> bool {
    exists|k: int|
        0 <= k <= outcomes.len() && sell_state_after(#[trigger] outcomes.take(k)) == Some(
            SellStep::Burn,
        )
}

/// Advance the sell path by one observed step outcome.
pub fn next_sell_step(current: SellStep, succeeded: bool) -> (r: Option<SellStep>)
    ensures
        r == advance_sell(current, succeeded),
        !succeeded ==> r is None,
{
    if !succeeded {
        None
    } else {
        match current {
            SellStep::RemoveLiquidity => Some(SellStep::SwapToWrap),
            SellStep::SwapToWrap => Some(SellStep::WithdrawWrap),
            SellStep::WithdrawWrap => Some(SellStep::UnwrapNear),
            SellStep::UnwrapNear => Some(SellStep::WithdrawUsn),
            SellStep::WithdrawUsn => Some(SellStep::Burn),
            SellStep::Burn => None,
        }
    }
}

/// Advance the buy path by one observed step outcome.
pub fn next_buy_step(current: BuyStep, succeeded: bool) -> (r: Option<BuyStep>)
    ensures
        r == advance_buy(current, succeeded),
        !succeeded ==> r is None,
{
    if !succeeded {
        None
    } else {
        match current {
            BuyStep::WrapNear => Some(BuyStep::DepositWrap),
            BuyStep::DepositWrap => Some(BuyStep::SwapToStable),
            BuyStep::SwapToStable => Some(BuyStep::AddLiquidity),
            BuyStep::AddLiquidity => None,
        }
    }
}

/// The amounts of the sell steps after the swap, carried forward from the
/// swap's own result.
#[derive(Clone, Copy, Debug, PartialEq, Eq, Structural)]
pub struct WithdrawPlan {
    /// What the wrap-withdraw and the unwrap take: the swap's output.
    pub wrap_amount: u128,
    /// What the stablecoin withdrawal and the burn take.
    pub usn_amount: u128,
}

/// Size the steps after the sell swap. Each step consumes the prior step's
/// output: the wrapped asset is withdrawn and unwrapped in exactly the
/// amount the swap returned, and the stablecoin amount the plan sized is
/// threaded through unchanged to the withdrawal and the burn.
pub fn plan_withdraw_after_swap(swap_output: u128, usn_amount: u128) -> (r: WithdrawPlan)
    ensures
        r.wrap_amount == swap_output,
        r.usn_amount == usn_amount,
{
    WithdrawPlan { wrap_amount: swap_output, usn_amount }
}

/// The amount the ledger burns at the end of a sell: the withdrawn
/// stablecoin where the withdrawal before it succeeded, nothing otherwise.
pub fn burn_amount_after_withdraw(withdraw_succeeded: bool, usn_amount: u128) -> (r: Option<u128>)
    ensures
        withdraw_succeeded ==> r == Some(usn_amount),
        !withdraw_succeeded ==> r is None,
{
    if withdraw_succeeded {
        Some(usn_amount)
    } else {
        None
    }
}

/// A live sell state tells the whole history: as many outcomes as the step's
/// position, all of them successes.
proof fn lemma_sell_state_counts_successes(outcomes: Seq<bool>, s: SellStep)
    requires
        sell_state_after(outcomes) == Some(s),
    ensures
        outcomes.len() == sell_index(s),
        forall|j: int| 0 <= j < outcomes.len() ==> outcomes[j],
    decreases outcomes.len(),
{
    if outcomes.len() > 0 {
        let prev = sell_state_after(outcomes.drop_last());
        match prev {
            Some(p) => {
                lemma_sell_state_counts_successes(outcomes.drop_last(), p);
                assert(outcomes.last());
                assert forall|j: int| 0 <= j < outcomes.len() implies outcomes[j] by {
                    if j < outcomes.len() - 1 {
                        assert(outcomes.drop_last()[j] == outcomes[j]);
                    }
                }
            },
            None => {},
        }
    }
}

/// A failure at any step before the burn keeps the burn from ever being
/// reached in that attempt.
pub proof fn lemma_failure_blocks_burn(outcomes: Seq<bool>, i: int)
    requires
        0 <= i < outcomes.len(),
        i < sell_index(SellStep::Burn),
        !outcomes[i],
    ensures
        !burn_reached(outcomes),
{
    assert forall|k: int|
        0 <= k <= outcomes.len() implies sell_state_after(#[trigger] outcomes.take(k)) != Some(
        SellStep::Burn,
    ) by {
        if sell_state_after(outcomes.take(k)) == Some(SellStep::Burn) {
            lemma_sell_state_counts_successes(outcomes.take(k), SellStep::Burn);
            assert(outcomes.take(k)[i] == outcomes[i]);
        }
    }
}

} // verus!
