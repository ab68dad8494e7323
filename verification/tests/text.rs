use usn_treasury::decision::TreasuryDecision;

#[test]
fn sell_line_shows_the_fraction() {
    let line = TreasuryDecision::Sell(23_604_588_213).describe();
    assert_eq!(line, "Treasury decision is to sell $23604.588213 USDT");
}

#[test]
fn whole_amounts_drop_the_point() {
    let line = TreasuryDecision::Sell(20_000_000_000).describe();
    assert_eq!(line, "Treasury decision is to sell $20000 USDT");
    let line = TreasuryDecision::Buy(1_500_000_000).describe();
    assert_eq!(line, "Treasury decision is to buy $1500 USDT");
}

#[test]
fn small_fractions_are_zero_padded() {
    let line = TreasuryDecision::Buy(1_000_000_042).describe();
    assert_eq!(line, "Treasury decision is to buy $1000.000042 USDT");
}

#[test]
fn doing_nothing_says_so() {
    let line = TreasuryDecision::DoNothing.describe();
    assert_eq!(line, "Treasury decision is to do nothing");
}
