//! The decision engine: rate history plus a reserve snapshot in, action out.
//!
//! Quantities are micro-units (`AMOUNT_SCALE` per whole token). The trend
//! fit over the eight samples is summarized by one fixed-point curvature
//! signal (`SIGNAL_SCALE` is its unit); the engine is verified for every
//! value of that signal.
use vstd::prelude::*;

verus! {

/// Micro-units per whole token; also the scale of an exchange rate.
pub const AMOUNT_SCALE: u128 = 1_000_000;

/// Fixed-point unit of the curvature signal: this value stands for 1.0.
pub const SIGNAL_SCALE: i64 = 1_000_000_000;

/// Smallest sell the treasury executes, in micro-units (1000 whole tokens).
pub const T_SELL_MIN_MICRO: u128 = 1_000_000_000;

/// Smallest buy the treasury executes, in micro-units (1000 whole tokens).
pub const T_BUY_MIN_MICRO: u128 = 1_000_000_000;

/// Largest sell per attempt, in micro-units (3,000,000 whole tokens).
pub const T_SELL_STEP_MICRO: u128 = 3_000_000_000_000;

/// Largest buy per attempt, in micro-units (3,000,000 whole tokens).
pub const T_BUY_STEP_MICRO: u128 = 3_000_000_000_000;

/// Largest exchange rate the engine accepts (a million units per unit).
pub const MAX_RATE: u128 = 1_000_000_000_000;

/// Largest native reserve the engine accepts, in micro-units.
pub const MAX_NEAR_MICRO: u128 = 1_000_000_000_000_000_000_000_000;

/// Largest stable quantity the engine accepts, in micro-units.
pub const MAX_AMOUNT_MICRO: u128 = 1_000_000_000_000_000_000_000_000_000;

/// Largest curvature-signal magnitude the engine accepts (10.0).
pub const MAX_SIGNAL: i64 = 10_000_000_000;

/// What one balancing attempt should do, amounts in micro-units of the
/// secondary reserve asset.
#[derive(Clone, Copy, Debug, PartialEq, Eq, Structural)]
pub enum TreasuryDecision {
    Buy(u128),
    Sell(u128),
    DoNothing,
}

/// The smaller of two integers.
pub open spec fn min_int(a: int, b: int) -> int {
    if a <= b {
        a
    } else {
        b
    }
}

/// The cap the caller asked for, or the step cap where none was given.
pub open spec fn cap_or(limit: Option<u128>, step: int) -> int {
    match limit {
        Some(l) => l as int,
        None => step,
    }
}

/// Value of the native reserve in micro-units of the secondary asset:
/// rate times reserve, brought back to one scale factor.
pub open spec fn near_value(rate: u128, near: u128) -> int {
    (rate * near) / (AMOUNT_SCALE as int)
}

/// A sell candidate clamped by the step cap, the secondary reserve and the
/// optional caller cap.
pub open spec fn sell_clamp(cand: int, usdt: u128, limit: Option<u128>) -> int {
    min_int(
        min_int(min_int(cand, T_SELL_STEP_MICRO as int), usdt as int),
        cap_or(limit, T_SELL_STEP_MICRO as int),
    )
}

/// A buy candidate clamped by the step cap, the native-reserve value and the
/// optional caller cap.
pub open spec fn buy_clamp(cand: int, nv: int, limit: Option<u128>) -> int {
    min_int(
        min_int(min_int(cand, T_BUY_STEP_MICRO as int), nv),
        cap_or(limit, T_BUY_STEP_MICRO as int),
    )
}

/// The decision rules, stated over mathematical integers.
///
/// `rate` is the newest exchange rate, `near`, `usn` and `usdt` the three
/// reserve quantities, `signal` the confidence-weighted curvature of the
/// trend fit, `limit` the optional caller cap in micro-units.
pub open spec fn decide_spec(
    rate: u128,
    near: u128,
    usn: u128,
    usdt: u128,
    signal: int,
    limit: Option<u128>,
) -> TreasuryDecision {
    let nv = near_value(rate, near);
    let q4 = usn as int / 4;
    if q4 - nv >= 0 {
        let cand = sell_clamp(q4 - nv, usdt, limit);
        if cand >= T_SELL_MIN_MICRO as int {
            TreasuryDecision::Sell(cand as u128)
        } else {
            TreasuryDecision::DoNothing
        }
    } else if signal > 0 {
        let inner = min_int(7 * (usdt as int + nv) / 10, 11 * (usn as int) / 10);
        let base = if usdt as int > inner {
            usdt as int - inner
        } else {
            0
        };
        let cand = sell_clamp(signal * base / (SIGNAL_SCALE as int), usdt, limit);
        if cand >= T_SELL_MIN_MICRO as int {
            TreasuryDecision::Sell(cand as u128)
        } else {
            TreasuryDecision::DoNothing
        }
    } else {
        let inner = min_int(6 * (usdt as int + nv) / 10, usn as int);
        let base = if inner > usdt as int {
            inner - usdt as int
        } else {
            0
        };
        let cand = buy_clamp((-signal) * base / (SIGNAL_SCALE as int), nv, limit);
        if cand >= T_BUY_MIN_MICRO as int {
            TreasuryDecision::Buy(cand as u128)
        } else {
            TreasuryDecision::DoNothing
        }
    }
}

/// The smaller of two amounts.
fn min_u128(a: u128, b: u128) -> (r: u128)
    ensures
        r == min_int(a as int, b as int),
{
    if a <= b {
        a
    } else {
        b
    }
}

/// Decide what one balancing attempt should do.
///
/// `rates` and `times` are the eight cached samples, oldest first; only the
/// newest rate enters the rules, the rest shape the caller-computed trend
/// `signal`. `near` is the native reserve, `usn` the circulating stable
/// supply, `usdt` the secondary reserve, each in micro-units; `limit` an
/// optional cap in micro-units. The bounds keep every product inside a
/// machine word; they are far above any real reserve.
#[allow(unused_variables)]
pub fn decide(
    rates: &Vec<u128>,
    times: &Vec<i128>,
    near: u128,
    usn: u128,
    usdt: u128,
    signal: i64,
    limit: Option<u128>,
) -> (r: TreasuryDecision)
    requires
        rates@.len() == 8,
        times@.len() == 8,
        rates@[7] <= MAX_RATE,
        near <= MAX_NEAR_MICRO,
        usn <= MAX_AMOUNT_MICRO,
        usdt <= MAX_AMOUNT_MICRO,
        -MAX_SIGNAL <= signal <= MAX_SIGNAL,
        limit matches Some(l) ==> l <= MAX_AMOUNT_MICRO,
    ensures
        r == decide_spec(rates@[7], near, usn, usdt, signal as int, limit),
        r matches TreasuryDecision::Sell(a) ==> T_SELL_MIN_MICRO <= a <= T_SELL_STEP_MICRO
            && a <= usdt && (limit matches Some(l) ==> a <= l),
        r matches TreasuryDecision::Buy(a) ==> T_BUY_MIN_MICRO <= a <= T_BUY_STEP_MICRO
            && a <= near_value(rates@[7], near) && (limit matches Some(l) ==> a <= l),
{
    let rate: u128 = rates[7];
    assert(rate * near <= MAX_RATE * MAX_NEAR_MICRO) by (nonlinear_arith)
        requires
            rate <= MAX_RATE,
            near <= MAX_NEAR_MICRO,
    ;
    let nv: u128 = (rate * near) / AMOUNT_SCALE;
    let q4: u128 = usn / 4;
    let cap: u128 = match limit {
        Some(l) => l,
        None => T_SELL_STEP_MICRO,
    };
    if q4 >= nv {
        let cand = min_u128(min_u128(min_u128(q4 - nv, T_SELL_STEP_MICRO), usdt), cap);
        if cand >= T_SELL_MIN_MICRO {
            TreasuryDecision::Sell(cand)
        } else {
            TreasuryDecision::DoNothing
        }
    } else if signal > 0 {
        let inner = min_u128(7 * (usdt + nv) / 10, 11 * usn / 10);
        let base: u128 = if usdt > inner {
            usdt - inner
        } else {
            0
        };
        let mag = signal as u128;
        assert(mag * base <= MAX_SIGNAL as u128 * MAX_AMOUNT_MICRO) by (nonlinear_arith)
            requires
                mag <= MAX_SIGNAL as u128,
                base <= MAX_AMOUNT_MICRO,
        ;
        let cand = min_u128(
            min_u128(min_u128(mag * base / (SIGNAL_SCALE as u128), T_SELL_STEP_MICRO), usdt),
            cap,
        );
        if cand >= T_SELL_MIN_MICRO {
            TreasuryDecision::Sell(cand)
        } else {
            TreasuryDecision::DoNothing
        }
    } else {
        let inner = min_u128(6 * (usdt + nv) / 10, usn);
        let base: u128 = if inner > usdt {
            inner - usdt
        } else {
            0
        };
        let mag = (-signal) as u128;
        assert(mag * base <= MAX_SIGNAL as u128 * MAX_AMOUNT_MICRO) by (nonlinear_arith)
            requires
                mag <= MAX_SIGNAL as u128,
                base <= MAX_AMOUNT_MICRO,
        ;
        let cand = min_u128(
            min_u128(min_u128(mag * base / (SIGNAL_SCALE as u128), T_BUY_STEP_MICRO), nv),
            cap,
        );
        if cand >= T_BUY_MIN_MICRO {
            TreasuryDecision::Buy(cand)
        } else {
            TreasuryDecision::DoNothing
        }
    }
}

/// The engine is deterministic: two results of the rules on one and the same
/// input are one and the same action.
pub proof fn lemma_decide_deterministic(
    rate: u128,
    near: u128,
    usn: u128,
    usdt: u128,
    signal: int,
    limit: Option<u128>,
    r1: TreasuryDecision,
    r2: TreasuryDecision,
)
    requires
        r1 == decide_spec(rate, near, usn, usdt, signal, limit),
        r2 == decide_spec(rate, near, usn, usdt, signal, limit),
    ensures
        r1 == r2,
{
}

} // verus!
