//! What the engine reads of an AMM liquidity pool: two tokens, one of them
//! the stablecoin, each with a declared decimal precision.
use vstd::prelude::*;

verus! {

/// The smallest decimal precision a pool token may declare: the scale of the
/// engine's own micro-units.
pub const MIN_TOKEN_DECIMALS: u8 = 6;

/// The largest decimal precision a pool token may declare.
pub const MAX_TOKEN_DECIMALS: u8 = 30;

/// Which side of the pool an amount belongs to.
#[derive(Clone, Copy, Debug, PartialEq, Eq, Structural)]
pub enum Extract {
    /// The treasury's own stablecoin.
    Usn,
    /// The other token of the pair: the secondary reserve asset.
    Other,
}

/// The engine's view of a two-token pool: the pool identifier, which token
/// position holds the stablecoin, and the per-token decimal precisions.
pub struct PoolModel {
    pub id: u64,
    pub usn_index: usize,
    pub decimals: Vec<u8>,
}

impl PoolModel {
    /// Position of the secondary reserve token.
    pub open spec fn spec_other_index(&self) -> int {
        1 - self.usn_index
    }

    /// Exactly two tokens, a valid stablecoin position, sane precisions.
    pub open spec fn well_formed(&self) -> bool {
        &&& self.decimals@.len() == 2
        &&& self.usn_index < 2
        &&& forall|i: int|
            0 <= i < 2 ==> MIN_TOKEN_DECIMALS <= #[trigger] self.decimals@[i] <= MAX_TOKEN_DECIMALS
    }

    /// Position of the secondary reserve token.
    pub fn other_index(&self) -> (r: usize)
        requires
            self.well_formed(),
        ensures
            r == self.spec_other_index(),
    {
        1 - self.usn_index
    }
}

/// Pick one side's amount out of a per-token amount list.
pub fn extract_amount(pool: &PoolModel, amounts: &Vec<u128>, extract: Extract) -> (r: u128)
    requires
        pool.well_formed(),
        amounts@.len() == 2,
    ensures
        extract == Extract::Usn ==> r == amounts@[pool.usn_index as int],
        extract == Extract::Other ==> r == amounts@[pool.spec_other_index()],
{
    match extract {
        Extract::Usn => amounts[pool.usn_index],
        Extract::Other => amounts[1 - pool.usn_index],
    }
}

/// One liquidity re-add after a buy: the per-token amounts and the least
/// number of pool shares accepted in return.
pub struct AddLiquidityPlan {
    /// Raw per-token amounts, in pool token order.
    pub amounts: Vec<u128>,
    /// Least acceptable shares minted for the add: none asked.
    pub min_shares: u128,
}

/// Size the liquidity re-add of a buy's swap output: the whole amount on the
/// secondary side, nothing on the stablecoin side, no floor on the shares.
pub fn plan_add_liquidity(pool: &PoolModel, amount: u128) -> (r: AddLiquidityPlan)
    requires
        pool.well_formed(),
    ensures
        r.amounts@.len() == 2,
        r.amounts@[pool.usn_index as int] == 0,
        r.amounts@[pool.spec_other_index()] == amount,
        r.min_shares == 0,
{
    AddLiquidityPlan { amounts: liquidity_add_amounts(pool, amount), min_shares: 0 }
}

/// Per-token amounts for adding liquidity after a buy: the whole swapped
/// amount on the secondary side, nothing on the stablecoin side.
pub fn liquidity_add_amounts(pool: &PoolModel, amount: u128) -> (r: Vec<u128>)
    requires
        pool.well_formed(),
    ensures
        r@.len() == 2,
        r@[pool.usn_index as int] == 0,
        r@[pool.spec_other_index()] == amount,
{
    let mut r: Vec<u128> = Vec::new();
    let mut i: usize = 0;
    while i < 2
        invariant
            i <= 2,
            pool.well_formed(),
            r@.len() == i,
            forall|j: int| 0 <= j < i && j == pool.usn_index ==> r@[j] == 0,
            forall|j: int| 0 <= j < i && j != pool.usn_index ==> r@[j] == amount,
        decreases 2 - i,
    {
        if i == pool.usn_index {
            r.push(0);
        } else {
            r.push(amount);
        }
        i = i + 1;
    }
    r
}

} // verus!
