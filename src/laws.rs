use vstd::prelude::*;
use crate::address::Address;
use crate::error::{settled, InstructionError, MockUsdcError};
use crate::instructions::{
    burn_outcome, mint_outcome, transfer_outcome, BurnTokens, MintTokens, TransferTokens,
};
use crate::request::{total_supply_change, TokenOp, TokenRequest};

verus! {

/// A signer other than the recorded mint authority is refused with
/// `UnauthorizedMint`, and no request goes to the token program, so the
/// supply cannot change.
pub proof fn lemma_unauthorized_mint_refused(ctx: MintTokens, amount: u64)
    requires
        ctx.mint_authority != Some(ctx.authority),
    ensures
        mint_outcome(ctx, amount) == Err::<TokenRequest, MockUsdcError>(
            MockUsdcError::UnauthorizedMint,
        ),
{
}

/// The recorded mint authority has exactly one mint request of `amount`
/// forwarded, and the instruction then succeeds exactly when the token
/// program does.
pub proof fn lemma_authorized_mint_forwarded(
    ctx: MintTokens,
    amount: u64,
    forwarded: Result<(), u64>,
)
    requires
        ctx.mint_authority == Some(ctx.authority),
    ensures
        mint_outcome(ctx, amount) == Ok::<TokenRequest, MockUsdcError>(
            TokenRequest {
                program: ctx.token_program,
                op: TokenOp::MintTo { mint: ctx.mint, to: ctx.to, authority: ctx.authority, amount },
            },
        ),
        settled(forwarded) is Ok <==> forwarded is Ok,
        forwarded matches Err(code) ==> settled(forwarded) == Err::<(), InstructionError>(
            InstructionError::Service(code),
        ),
{
}

/// A transfer is forwarded whoever signs it: the signer is handed on to the
/// token program and compared with nothing here.
pub proof fn lemma_transfer_ignores_signer(ctx: TransferTokens, amount: u64, signer: Address)
    ensures
        transfer_outcome(TransferTokens { authority: signer, ..ctx }, amount) == Ok::<
            TokenRequest,
            MockUsdcError,
        >(
            TokenRequest {
                program: ctx.token_program,
                op: TokenOp::Transfer { from: ctx.from, to: ctx.to, authority: signer, amount },
            },
        ),
{
}

/// A burn is forwarded whoever signs it: the signer is handed on to the
/// token program and compared with nothing here.
pub proof fn lemma_burn_ignores_signer(ctx: BurnTokens, amount: u64, signer: Address)
    ensures
        burn_outcome(BurnTokens { authority: signer, ..ctx }, amount) == Ok::<
            TokenRequest,
            MockUsdcError,
        >(
            TokenRequest {
                program: ctx.token_program,
                op: TokenOp::Burn { mint: ctx.mint, from: ctx.from, authority: signer, amount },
            },
        ),
{
}

/// Minting is not idempotent: the same authorized mint, made twice, forwards
/// two requests that together ask for twice the amount, not once.
pub proof fn lemma_mint_twice_asks_twice(ctx: MintTokens, amount: u64)
    requires
        ctx.mint_authority == Some(ctx.authority),
    ensures
        mint_outcome(ctx, amount) is Ok,
        total_supply_change(
            seq![mint_outcome(ctx, amount)->Ok_0, mint_outcome(ctx, amount)->Ok_0],
            ctx.mint,
        ) == 2 * amount,
        amount > 0 ==> total_supply_change(
            seq![mint_outcome(ctx, amount)->Ok_0, mint_outcome(ctx, amount)->Ok_0],
            ctx.mint,
        ) != amount,
{
    let req = mint_outcome(ctx, amount)->Ok_0;
    let twice = seq![req, req];
    assert(twice.drop_last() =~= seq![req]);
    reveal_with_fuel(total_supply_change, 3);
}

} // verus!
