use mock_usdc_token::{
    burn_tokens, initialize_mint, mint_tokens, settle, transfer_tokens, Address, BurnTokens,
    InitializeMint, InstructionError, MintTokens, MockUsdcError, TokenOp, TokenRequest,
    TransferTokens, DECIMALS,
};

fn addr(b: u8) -> Address {
    Address::new([b; 32])
}

fn token_program() -> Address {
    addr(9)
}

fn mint_ctx(recorded: Option<Address>, signer: Address) -> MintTokens {
    MintTokens {
        mint: addr(10),
        mint_authority: recorded,
        to: addr(20),
        authority: signer,
        token_program: token_program(),
    }
}

fn transfer_ctx(signer: Address) -> TransferTokens {
    TransferTokens { from: addr(20), to: addr(21), authority: signer, token_program: token_program() }
}

fn burn_ctx(signer: Address) -> BurnTokens {
    BurnTokens { mint: addr(10), from: addr(20), authority: signer, token_program: token_program() }
}

fn minted(amount: u64, signer: Address) -> TokenRequest {
    TokenRequest {
        program: token_program(),
        op: TokenOp::MintTo { mint: addr(10), to: addr(20), authority: signer, amount },
    }
}

#[test]
fn address_equality_is_bytewise() {
    let mut bytes = [7u8; 32];
    let a = Address::new(bytes);
    assert!(a.same_as(&Address::new(bytes)));
    assert_eq!(a.to_bytes(), bytes);
    bytes[31] = 8;
    assert!(!a.same_as(&Address::new(bytes)));
    assert!(a != Address::new(bytes));
    bytes[31] = 7;
    bytes[0] = 0;
    assert!(!a.same_as(&Address::new(bytes)));
}

#[test]
fn initialize_mint_uses_six_decimals_and_signer_as_authorities() {
    let ctx = InitializeMint { mint: addr(10), authority: addr(1), token_program: token_program() };
    let r = initialize_mint(&ctx).unwrap();
    assert_eq!(DECIMALS, 6);
    assert_eq!(
        r,
        TokenRequest {
            program: token_program(),
            op: TokenOp::InitializeMint {
                mint: addr(10),
                decimals: 6,
                mint_authority: addr(1),
                freeze_authority: Some(addr(1)),
            },
        }
    );
}

#[test]
fn mint_by_other_signer_is_refused() {
    let r = mint_tokens(&mint_ctx(Some(addr(1)), addr(2)), 100);
    assert_eq!(r, Err(MockUsdcError::UnauthorizedMint));
}

#[test]
fn mint_without_recorded_authority_is_refused() {
    let r = mint_tokens(&mint_ctx(None, addr(1)), 100);
    assert_eq!(r, Err(MockUsdcError::UnauthorizedMint));
}

#[test]
fn mint_by_authority_forwards_one_request() {
    let r = mint_tokens(&mint_ctx(Some(addr(1)), addr(1)), 100);
    assert_eq!(r, Ok(minted(100, addr(1))));
}

#[test]
fn mint_amount_is_not_checked_here() {
    let zero = mint_tokens(&mint_ctx(Some(addr(1)), addr(1)), 0);
    assert_eq!(zero, Ok(minted(0, addr(1))));
    let max = mint_tokens(&mint_ctx(Some(addr(1)), addr(1)), u64::MAX);
    assert_eq!(max, Ok(minted(u64::MAX, addr(1))));
}

#[test]
fn mint_twice_forwards_two_requests() {
    let ctx = mint_ctx(Some(addr(1)), addr(1));
    let first = mint_tokens(&ctx, 100).unwrap();
    let second = mint_tokens(&ctx, 100).unwrap();
    let mut total: u64 = 0;
    for req in [first, second] {
        if let TokenOp::MintTo { amount, .. } = req.op {
            total += amount;
        }
    }
    assert_eq!(total, 200);
}

#[test]
fn transfer_forwards_whoever_signs() {
    for signer in [addr(1), addr(2), addr(3)] {
        let r = transfer_tokens(&transfer_ctx(signer), 50);
        assert_eq!(
            r,
            Ok(TokenRequest {
                program: token_program(),
                op: TokenOp::Transfer { from: addr(20), to: addr(21), authority: signer, amount: 50 },
            })
        );
    }
}

#[test]
fn burn_forwards_whoever_signs() {
    for signer in [addr(1), addr(2), addr(3)] {
        let r = burn_tokens(&burn_ctx(signer), 30);
        assert_eq!(
            r,
            Ok(TokenRequest {
                program: token_program(),
                op: TokenOp::Burn { mint: addr(10), from: addr(20), authority: signer, amount: 30 },
            })
        );
    }
}

#[test]
fn settle_passes_on_the_token_program_verdict() {
    assert_eq!(settle(Ok(())), Ok(()));
    assert_eq!(settle(Err(1)), Err(InstructionError::Service(1)));
    assert_eq!(settle(Err(u64::MAX)), Err(InstructionError::Service(u64::MAX)));
}

#[test]
fn error_messages() {
    assert_eq!(MockUsdcError::UnauthorizedMint.message(), "Unauthorized mint operation");
    assert_eq!(MockUsdcError::InsufficientBalance.message(), "Insufficient balance");
    assert_eq!(MockUsdcError::InvalidTokenAccount.message(), "Invalid token account");
}

#[test]
fn mint_with_authority_then_with_stranger() {
    let a = addr(1);
    let b = addr(2);
    let init = initialize_mint(&InitializeMint { mint: addr(10), authority: a, token_program: token_program() })
        .unwrap();
    let recorded = match init.op {
        TokenOp::InitializeMint { decimals, mint_authority, .. } => {
            assert_eq!(decimals, 6);
            mint_authority
        }
        _ => panic!("expected a mint creation"),
    };
    let by_a = mint_tokens(&mint_ctx(Some(recorded), a), 1_000_000);
    assert_eq!(by_a, Ok(minted(1_000_000, a)));
    assert_eq!(settle(Ok(())), Ok(()));
    let by_b = mint_tokens(&mint_ctx(Some(recorded), b), 1_000_000);
    assert_eq!(by_b, Err(MockUsdcError::UnauthorizedMint));
}

#[test]
fn transfer_beyond_balance_fails_in_the_token_program() {
    let r = transfer_tokens(&transfer_ctx(addr(1)), u64::MAX);
    assert!(r.is_ok());
    // The token program answers an overdrawn transfer with its own error code.
    let insufficient_funds: u64 = 1;
    assert_eq!(settle(Err(insufficient_funds)), Err(InstructionError::Service(insufficient_funds)));
}
