pub mod authority;
pub mod context;
pub mod error;
pub mod identity;
pub mod laws;
pub mod staking;
pub mod state;

pub use crate::authority::{
    address_with_bump, derive_authority, find_authority, seeds_of, signer_seeds,
    DerivedAuthority, Namespace,
};
pub use crate::context::{
    Airdrop, Context, CpiContext, Deposit, InitializeMint, InitializeStakePool,
    InitializeStateAccount, MintTo, Transfer, Withdraw,
};
pub use crate::error::StakingError;
pub use crate::identity::Identity;
pub use crate::staking::{
    airdrop, airdrop_with_authority, confirm, deposit, initialize_mint,
    initialize_mint_with_authority, initialize_staking_pool,
    initialize_staking_pool_with_authority, initialize_state_account, settle, withdraw,
    withdraw_with_authority, StagedMint, StagedTransfer,
};
pub use crate::state::{credit, debit, Account, Mint, StakingPool, StateAccount};
