use vstd::prelude::*;
use crate::address::Address;
use crate::error::MockUsdcError;
use crate::request::{TokenOp, TokenRequest};

verus! {

/// The decimal precision of every mint this program creates.
pub const DECIMALS: u8 = 6;

/// The accounts of the instruction that creates the mint.
#[derive(Clone, Copy, Debug)]
pub struct InitializeMint {
    /// The mint to be created.
    pub mint: Address,
    /// The signer, who pays for the mint and becomes its authority.
    pub authority: Address,
    pub token_program: Address,
}

/// The accounts of the instruction that mints tokens.
#[derive(Clone, Copy, Debug)]
pub struct MintTokens {
    pub mint: Address,
    /// The mint authority that the mint records, if it has one.
    pub mint_authority: Option<Address>,
    /// The token account that receives the new tokens.
    pub to: Address,
    /// The signer of the instruction.
    pub authority: Address,
    pub token_program: Address,
}

/// The accounts of the instruction that moves tokens between accounts.
#[derive(Clone, Copy, Debug)]
pub struct TransferTokens {
    pub from: Address,
    pub to: Address,
    /// The signer of the instruction.
    pub authority: Address,
    pub token_program: Address,
}

/// The accounts of the instruction that burns tokens.
#[derive(Clone, Copy, Debug)]
pub struct BurnTokens {
    pub mint: Address,
    pub from: Address,
    /// The signer of the instruction.
    pub authority: Address,
    pub token_program: Address,
}

impl MintTokens {
    /// The signer is the authority that the mint records.
    pub open spec fn authorized(&self) -> bool {
        self.mint_authority == Some(self.authority)
    }
}

/// The request that creates the mint: six decimals, with the signer as both
/// its mint and its freeze authority.
pub open spec fn initialize_outcome(ctx: InitializeMint) -> Result<TokenRequest, MockUsdcError> {
    Ok(
        TokenRequest {
            program: ctx.token_program,
            op: TokenOp::InitializeMint {
                mint: ctx.mint,
                decimals: DECIMALS,
                mint_authority: ctx.authority,
                freeze_authority: Some(ctx.authority),
            },
        },
    )
}

/// A mint of `amount` goes ahead only for the recorded mint authority.
pub open spec fn mint_outcome(ctx: MintTokens, amount: u64) -> Result<TokenRequest, MockUsdcError> {
    if ctx.authorized() {
        Ok(
            TokenRequest {
                program: ctx.token_program,
                op: TokenOp::MintTo {
                    mint: ctx.mint,
                    to: ctx.to,
                    authority: ctx.authority,
                    amount,
                },
            },
        )
    } else {
        Err(MockUsdcError::UnauthorizedMint)
    }
}

/// A transfer of `amount` always goes ahead: the token program checks the
/// signer against the source account.
pub open spec fn transfer_outcome(ctx: TransferTokens, amount: u64) -> Result<TokenRequest, MockUsdcError> {
    Ok(
        TokenRequest {
            program: ctx.token_program,
            op: TokenOp::Transfer { from: ctx.from, to: ctx.to, authority: ctx.authority, amount },
        },
    )
}

/// A burn of `amount` always goes ahead: the token program checks the signer
/// against the source account.
pub open spec fn burn_outcome(ctx: BurnTokens, amount: u64) -> Result<TokenRequest, MockUsdcError> {
    Ok(
        TokenRequest {
            program: ctx.token_program,
            op: TokenOp::Burn { mint: ctx.mint, from: ctx.from, authority: ctx.authority, amount },
        },
    )
}

/// Creates the mint: names the request that the token program is to carry out.
pub fn initialize_mint(ctx: &InitializeMint) -> (r: Result<TokenRequest, MockUsdcError>)
    ensures
        r == initialize_outcome(*ctx),
{
    Ok(
        TokenRequest {
            program: ctx.token_program,
            op: TokenOp::InitializeMint {
                mint: ctx.mint,
                decimals: DECIMALS,
                mint_authority: ctx.authority,
                freeze_authority: Some(ctx.authority),
            },
        },
    )
}

/// Mints `amount` tokens to `ctx.to`, for the mint authority alone. Any other
/// signer, or a mint that records no authority, gets `UnauthorizedMint` and
/// nothing is forwarded.
pub fn mint_tokens(ctx: &MintTokens, amount: u64) -> (r: Result<TokenRequest, MockUsdcError>)
    ensures
        r == mint_outcome(*ctx, amount),
{
    let allowed = match &ctx.mint_authority {
        Some(recorded) => ctx.authority.same_as(recorded),
        None => false,
    };
    if !allowed {
        return Err(MockUsdcError::UnauthorizedMint);
    }
    Ok(
        TokenRequest {
            program: ctx.token_program,
            op: TokenOp::MintTo { mint: ctx.mint, to: ctx.to, authority: ctx.authority, amount },
        },
    )
}

/// Transfers `amount` tokens from `ctx.from` to `ctx.to`. Whether the signer
/// may do so, and whether the balance suffices, is left to the token program.
pub fn transfer_tokens(ctx: &TransferTokens, amount: u64) -> (r: Result<TokenRequest, MockUsdcError>)
    ensures
        r == transfer_outcome(*ctx, amount),
{
    Ok(
        TokenRequest {
            program: ctx.token_program,
            op: TokenOp::Transfer { from: ctx.from, to: ctx.to, authority: ctx.authority, amount },
        },
    )
}

/// Burns `amount` tokens held by `ctx.from`. Whether the signer may do so is
/// left to the token program.
pub fn burn_tokens(ctx: &BurnTokens, amount: u64) -> (r: Result<TokenRequest, MockUsdcError>)
    ensures
        r == burn_outcome(*ctx, amount),
{
    Ok(
        TokenRequest {
            program: ctx.token_program,
            op: TokenOp::Burn { mint: ctx.mint, from: ctx.from, authority: ctx.authority, amount },
        },
    )
}

} // verus!
