use usn_treasury::pool::{
    extract_amount, liquidity_add_amounts, plan_add_liquidity, Extract, PoolModel,
};
use usn_treasury::saga::{
    burn_amount_after_withdraw, next_buy_step, next_phase, next_sell_step,
    plan_withdraw_after_swap, AttemptPhase, BuyStep, SellStep,
};

#[test]
fn post_swap_steps_take_the_swap_output() {
    // The swap returned less than its input; the wrap withdrawal and the
    // unwrap must take what came back, the stablecoin side what was planned.
    let tail = plan_withdraw_after_swap(123_456, 999);
    assert_eq!(tail.wrap_amount, 123_456);
    assert_eq!(tail.usn_amount, 999);
}

#[test]
fn attempt_phases_run_in_order() {
    let p = next_phase(AttemptPhase::Collecting, true, true);
    assert_eq!(p, AttemptPhase::Deciding);
    assert_eq!(next_phase(p, true, true), AttemptPhase::Executing);
    assert_eq!(next_phase(p, true, false), AttemptPhase::Idle);
    assert_eq!(
        next_phase(AttemptPhase::Executing, true, true),
        AttemptPhase::Done
    );
    // A failed read aborts the attempt before any effect.
    assert_eq!(
        next_phase(AttemptPhase::Collecting, false, true),
        AttemptPhase::Done
    );
}

#[test]
fn sell_chain_runs_in_order_while_steps_succeed() {
    let mut step = SellStep::RemoveLiquidity;
    let mut seen = vec![step];
    while let Some(next) = next_sell_step(step, true) {
        step = next;
        seen.push(step);
    }
    assert_eq!(
        seen,
        vec![
            SellStep::RemoveLiquidity,
            SellStep::SwapToWrap,
            SellStep::WithdrawWrap,
            SellStep::UnwrapNear,
            SellStep::WithdrawUsn,
            SellStep::Burn,
        ]
    );
}

#[test]
fn sell_chain_halts_at_the_first_failure() {
    // The swap fails mid-chain: nothing follows, so the burn is never reached.
    let step = next_sell_step(SellStep::RemoveLiquidity, true).unwrap();
    assert_eq!(step, SellStep::SwapToWrap);
    assert_eq!(next_sell_step(step, false), None);
}

#[test]
fn failed_withdrawal_burns_nothing() {
    assert_eq!(burn_amount_after_withdraw(false, 1_000_000), None);
    assert_eq!(burn_amount_after_withdraw(true, 1_000_000), Some(1_000_000));
}

#[test]
fn buy_chain_runs_in_order_and_halts_on_failure() {
    let mut step = BuyStep::WrapNear;
    let mut seen = vec![step];
    while let Some(next) = next_buy_step(step, true) {
        step = next;
        seen.push(step);
    }
    assert_eq!(
        seen,
        vec![
            BuyStep::WrapNear,
            BuyStep::DepositWrap,
            BuyStep::SwapToStable,
            BuyStep::AddLiquidity,
        ]
    );
    assert_eq!(next_buy_step(BuyStep::DepositWrap, false), None);
}

#[test]
fn amounts_are_extracted_by_token_position() {
    let pool = PoolModel { id: 3, usn_index: 1, decimals: vec![6, 18] };
    let amounts = vec![11, 22];
    assert_eq!(extract_amount(&pool, &amounts, Extract::Usn), 22);
    assert_eq!(extract_amount(&pool, &amounts, Extract::Other), 11);
}

#[test]
fn liquidity_goes_back_one_sided() {
    let pool = PoolModel { id: 3, usn_index: 0, decimals: vec![18, 6] };
    assert_eq!(liquidity_add_amounts(&pool, 777), vec![0, 777]);
    let flipped = PoolModel { id: 3, usn_index: 1, decimals: vec![6, 18] };
    assert_eq!(liquidity_add_amounts(&flipped, 777), vec![777, 0]);
    let add = plan_add_liquidity(&pool, 777);
    assert_eq!(add.amounts, vec![0, 777]);
    assert_eq!(add.min_shares, 0);
}
