//! Treasury balancing core for an algorithmic stablecoin.
//!
//! The library holds the verified logic of a treasury that keeps a
//! stablecoin's reserve in balance: a fixed-capacity cache of exchange-rate
//! samples, a decision engine turning the rate history and a reserve snapshot
//! into a buy/sell/no-op action, the planners that size the external calls
//! realizing an action, and the saga state machine that orders those calls.
//!
//! All monetary quantities are fixed-point integers in micro-units (one
//! millionth of a whole token); exchange rates are scaled by the same factor.
//! The curvature signal of the trend fit is itself a fixed-point input, so
//! every function here is verified for every value the fit may produce.
use vstd::prelude::*;

pub mod cache;
pub mod decision;
pub mod fixed;
pub mod oracle;
pub mod orchestrate;
pub mod plan;
pub mod pool;
pub mod rng;
pub mod saga;
pub mod text;

verus! {

/// Why a balancing attempt was rejected before any external effect.
#[derive(Clone, Copy, Debug, PartialEq, Eq, Structural)]
pub enum TreasuryError {
    /// The rate cache holds fewer samples than a decision needs.
    NotWarmedUp,
    /// The liquidity pool does not expose exactly two tokens.
    InvalidPoolShape,
    /// A caller-supplied cap range has its minimum above its maximum.
    InvalidRange,
}

} // verus!
