use usn_treasury::decision::{decide, TreasuryDecision};

fn flat_series(rate: u128) -> (Vec<u128>, Vec<i128>) {
    let rates = vec![rate; 8];
    let times = vec![-7, -6, -5, -4, -3, -2, -1, 0];
    (rates, times)
}

#[test]
fn excess_sell_is_clamped_by_step_cap() {
    let (rates, times) = flat_series(1_000_000);
    // A quarter of the supply exceeds the native value by far more than the
    // step cap, and the secondary reserve is ample.
    let r = decide(
        &rates,
        &times,
        4_000_000_000,
        40_000_000_000_000,
        5_000_000_000_000,
        0,
        None,
    );
    assert_eq!(r, TreasuryDecision::Sell(3_000_000_000_000));
}

#[test]
fn excess_sell_is_clamped_by_secondary_reserve() {
    let (rates, times) = flat_series(1_000_000);
    let r = decide(
        &rates,
        &times,
        4_000_000_000,
        40_000_000_000_000,
        1_500_000_000,
        0,
        None,
    );
    assert_eq!(r, TreasuryDecision::Sell(1_500_000_000));
}

#[test]
fn excess_sell_is_clamped_by_caller_cap() {
    let (rates, times) = flat_series(1_000_000);
    let r = decide(
        &rates,
        &times,
        4_000_000_000,
        40_000_000_000_000,
        5_000_000_000_000,
        0,
        Some(2_000_000_000),
    );
    assert_eq!(r, TreasuryDecision::Sell(2_000_000_000));
}

#[test]
fn tiny_excess_does_nothing() {
    let (rates, times) = flat_series(1_000_000);
    // The excess is one whole token: below the sell minimum.
    let r = decide(
        &rates,
        &times,
        3_999_000_000,
        16_000_000_000,
        5_000_000_000_000,
        0,
        None,
    );
    assert_eq!(r, TreasuryDecision::DoNothing);
}

#[test]
fn trend_sell_follows_the_signal() {
    let (rates, times) = flat_series(1_000_000);
    // Native value 8000 outweighs a quarter of the supply (1000); a positive
    // signal of 0.5 sells half the reserve above the guarded floor.
    let r = decide(
        &rates,
        &times,
        8_000_000_000,
        4_000_000_000,
        100_000_000_000,
        500_000_000,
        None,
    );
    assert_eq!(r, TreasuryDecision::Sell(47_800_000_000));
}

#[test]
fn trend_buy_follows_the_signal() {
    let (rates, times) = flat_series(1_000_000);
    let r = decide(
        &rates,
        &times,
        8_000_000_000,
        4_000_000_000,
        1_000_000_000,
        -500_000_000,
        None,
    );
    assert_eq!(r, TreasuryDecision::Buy(1_500_000_000));
}

#[test]
fn buy_is_clamped_by_native_value() {
    let (rates, times) = flat_series(1_000_000);
    let r = decide(
        &rates,
        &times,
        1_200_000_000,
        4_000_000_000,
        1_000_000_000,
        -10_000_000_000,
        None,
    );
    assert_eq!(r, TreasuryDecision::Buy(1_200_000_000));
}

#[test]
fn flat_signal_does_nothing() {
    let (rates, times) = flat_series(1_000_000);
    let r = decide(
        &rates,
        &times,
        8_000_000_000,
        4_000_000_000,
        1_000_000_000,
        0,
        None,
    );
    assert_eq!(r, TreasuryDecision::DoNothing);
}

#[test]
fn decision_is_deterministic() {
    let (rates, times) = flat_series(6_615_000);
    let a = decide(
        &rates,
        &times,
        191_937_460_531_210,
        1_241_195_491_765_770,
        1_367_351_872_047_690,
        250_000_000,
        None,
    );
    let b = decide(
        &rates,
        &times,
        191_937_460_531_210,
        1_241_195_491_765_770,
        1_367_351_872_047_690,
        250_000_000,
        None,
    );
    assert_eq!(a, b);
}
