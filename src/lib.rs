//! The authority check of a mock USDC token program.
//!
//! Each instruction reads the accounts that the caller handed in, decides
//! whether it may go ahead, and names the one request that is forwarded to
//! the token program. Balances, supply and account records belong to the
//! token program; this crate decides only what is asked of it.
pub mod address;
pub mod error;
pub mod instructions;
pub mod laws;
pub mod request;

pub use address::Address;
pub use error::{settle, InstructionError, MockUsdcError};
pub use instructions::{
    burn_tokens, initialize_mint, mint_tokens, transfer_tokens, BurnTokens, InitializeMint,
    MintTokens, TransferTokens, DECIMALS,
};
pub use request::{TokenOp, TokenRequest};
