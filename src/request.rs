use vstd::prelude::*;
use crate::address::Address;

verus! {

/// One operation asked of the token program.
#[derive(Clone, Copy, Debug, PartialEq, Eq)]
pub enum TokenOp {
    /// Create the mint record.
    InitializeMint {
        mint: Address,
        decimals: u8,
        mint_authority: Address,
        freeze_authority: Option<Address>,
    },
    /// Add `amount` units to the supply, credited to `to`.
    MintTo { mint: Address, to: Address, authority: Address, amount: u64 },
    /// Move `amount` units from `from` to `to`.
    Transfer { from: Address, to: Address, authority: Address, amount: u64 },
    /// Remove `amount` units held by `from` from the supply.
    Burn { mint: Address, from: Address, authority: Address, amount: u64 },
}

/// A request forwarded to the token program at `program`.
#[derive(Clone, Copy, Debug, PartialEq, Eq)]
pub struct TokenRequest {
    pub program: Address,
    pub op: TokenOp,
}

/// The change in the supply of `mint` that an operation asks for: a mint
/// asks for its amount more, a burn for its amount less, anything else for
/// none.
pub open spec fn requested_supply_change(op: TokenOp, mint: Address) -> int {
    match op {
        TokenOp::MintTo { mint: m, amount, .. } => if m == mint {
            amount as int
        } else {
            0
        },
        TokenOp::Burn { mint: m, amount, .. } => if m == mint {
            -(amount as int)
        } else {
            0
        },
        _ => 0,
    }
}

/// The change in the supply of `mint` that a run of requests asks for, all
/// together.
pub open spec fn total_supply_change(reqs: Seq<TokenRequest>, mint: Address) -> int
    decreases reqs.len(),
{
    if reqs.len() == 0 {
        0
    } else {
        total_supply_change(reqs.drop_last(), mint) + requested_supply_change(
            reqs.last().op,
            mint,
        )
    }
}

} // verus!
