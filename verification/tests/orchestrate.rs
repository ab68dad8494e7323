use usn_treasury::cache::RateCache;
use usn_treasury::decision::TreasuryDecision;
use usn_treasury::orchestrate::{
    choose_cap, collect_snapshot, start_balancing, validate_balancing_request, PlannedAction,
};
use usn_treasury::plan::{plan_buy, plan_sell};
use usn_treasury::pool::PoolModel;
use usn_treasury::fixed::pow10_u128;
use usn_treasury::TreasuryError;

fn two_token_pool() -> PoolModel {
    PoolModel { id: 3, usn_index: 0, decimals: vec![18, 6] }
}

fn warmed_cache(rate: u128) -> RateCache {
    let mut cache = RateCache::new();
    for k in 0..8u64 {
        cache.append(k, rate);
    }
    cache
}

#[test]
fn powers_of_ten() {
    assert_eq!(pow10_u128(0), 1);
    assert_eq!(pow10_u128(6), 1_000_000);
    assert_eq!(pow10_u128(24), 1_000_000_000_000_000_000_000_000);
}

#[test]
fn cap_range_is_validated() {
    assert_eq!(choose_cap([7; 32], None), Ok(None));
    assert_eq!(
        choose_cap([7; 32], Some((5, 3))),
        Err(TreasuryError::InvalidRange)
    );
    assert_eq!(choose_cap([7; 32], Some((7, 7))), Ok(Some(7)));
}

#[test]
fn cap_is_drawn_inside_the_range() {
    let drawn = choose_cap([0; 32], Some((10_000, 20_000))).unwrap().unwrap();
    assert!((10_000..20_000).contains(&drawn));
    // The same seed draws the same cap; another seed stays in range too.
    let again = choose_cap([0; 32], Some((10_000, 20_000))).unwrap().unwrap();
    assert_eq!(drawn, again);
    let other = choose_cap([255; 32], Some((10_000, 20_000))).unwrap().unwrap();
    assert!((10_000..20_000).contains(&other));
}

#[test]
fn request_needs_warm_cache() {
    let cold = RateCache::new();
    assert_eq!(
        validate_balancing_request(&cold, [0; 32], None),
        Err(TreasuryError::NotWarmedUp)
    );
    // A bad range is rejected before the cache is looked at.
    assert_eq!(
        validate_balancing_request(&cold, [0; 32], Some((9, 2))),
        Err(TreasuryError::InvalidRange)
    );
    let warm = warmed_cache(1_000_000);
    assert_eq!(validate_balancing_request(&warm, [0; 32], None), Ok(None));
}

#[test]
fn snapshot_rescales_every_read() {
    let pool = two_token_pool();
    let predicted = vec![1_000_000_000_000_000_000, 5_000_000_000];
    let held = vec![3_000_000_000_000_000_000, 7_000_000];
    let snapshot = collect_snapshot(
        &pool,
        &predicted,
        &held,
        10_000_000_000_000_000_000,
        2_500_000_000_000_000_003,
        3,
    )
    .unwrap();
    assert_eq!(snapshot.near_micro, 2);
    assert_eq!(snapshot.usn_micro, 7_000_000);
    assert_eq!(snapshot.usdt_micro, 5_000_000_000);
}

#[test]
fn snapshot_needs_two_tokens() {
    let pool = two_token_pool();
    let predicted = vec![1, 2, 3];
    let held = vec![1, 2];
    assert_eq!(
        collect_snapshot(&pool, &predicted, &held, 10, 10, 0),
        Err(TreasuryError::InvalidPoolShape)
    );
}

#[test]
fn sell_plan_sizes_every_call() {
    let pool = two_token_pool();
    let plan = plan_sell(&pool, 3, 2_000_000_000, 2_000_000);
    // 2000 whole tokens leave the pool, in each token's raw unit.
    assert_eq!(
        plan.remove_amounts,
        vec![2_000_000_000_000_000_000_000, 2_000_000_000]
    );
    assert_eq!(plan.usn_amount, 2_000_000_000_000_000_000_000);
    assert_eq!(plan.max_burn_shares, u128::MAX);
    assert_eq!(plan.swap.pool_id, 3);
    assert_eq!(plan.swap.amount_in, 2_000_000_000);
    // Half of 2000 tokens at rate 2, in the wrapped native asset's raw unit.
    assert_eq!(plan.swap.min_amount_out, 500_000_000_000_000_000_000_000_000);
}

#[test]
fn buy_plan_sizes_every_call() {
    let plan = plan_buy(3, 2_000_000_000, 2_000_000);
    // 2000 whole tokens at rate 2 wrap 1000 native tokens.
    assert_eq!(plan.wrap_amount, 1_000_000_000_000_000_000_000_000_000);
    assert_eq!(plan.swap.amount_in, plan.wrap_amount);
    assert_eq!(plan.swap.min_amount_out, 1_000_000_000);
}

#[test]
fn attempt_plans_an_excess_sell() {
    let cache = warmed_cache(1_000_000);
    let pool = two_token_pool();
    let predicted = vec![0, 5_000_000_000_000];
    let held = vec![0, 0];
    let out = start_balancing(
        &cache,
        8,
        &pool,
        3,
        &predicted,
        &held,
        40_000_000_000_000_000_000_000_000,
        4_000_000_000_000_000_000_000_000_003,
        3,
        0,
        None,
        true,
    )
    .unwrap();
    // Supply 40,000,000; native value 4,000,000,000 micro; the quarter-supply
    // excess outruns the step cap.
    assert_eq!(out.snapshot.usn_micro, 40_000_000_000_000);
    assert_eq!(out.snapshot.near_micro, 4_000_000_000);
    assert_eq!(out.decision, TreasuryDecision::Sell(3_000_000_000_000));
    match out.action {
        PlannedAction::Sell(p) => {
            assert_eq!(p.swap.amount_in, 3_000_000_000_000);
            assert_eq!(p.usn_amount, 3_000_000_000_000_000_000_000_000);
        }
        _ => panic!("expected a sell plan"),
    }
}

#[test]
fn attempt_without_execution_stops_at_the_decision() {
    let cache = warmed_cache(1_000_000);
    let pool = two_token_pool();
    let predicted = vec![0, 5_000_000_000_000];
    let held = vec![0, 0];
    let out = start_balancing(
        &cache,
        8,
        &pool,
        3,
        &predicted,
        &held,
        40_000_000_000_000_000_000,
        4_000_000_000_000_000_000_000_003,
        3,
        0,
        None,
        false,
    )
    .unwrap();
    assert!(matches!(out.action, PlannedAction::Nothing));
}

#[test]
fn attempt_aborts_before_any_effect() {
    let cold = RateCache::new();
    let pool = two_token_pool();
    let two = vec![0, 0];
    let three = vec![0, 0, 0];
    assert!(matches!(
        start_balancing(&cold, 0, &pool, 3, &three, &two, 0, 0, 0, 0, None, true),
        Err(TreasuryError::InvalidPoolShape)
    ));
    assert!(matches!(
        start_balancing(&cold, 0, &pool, 3, &two, &two, 0, 0, 0, 0, None, true),
        Err(TreasuryError::NotWarmedUp)
    ));
}
