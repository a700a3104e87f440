use crate::authority::DerivedAuthority;
use crate::identity::Identity;
use crate::state::{Account, Mint, StakingPool, StateAccount};
use vstd::prelude::*;

verus! {

/// What an operation is given: the program under which authorities are
/// derived, and the accounts it works on.
#[derive(Clone, Copy, Debug, PartialEq, Eq)]
pub struct Context<T> {
    pub program_id: Identity,
    pub accounts: T,
}

impl<T> Context<T> {
    /// Puts the accounts of an operation under a program.
    pub fn new(program_id: Identity, accounts: T) -> (ctx: Context<T>)
        ensures
            ctx == (Context::<T> { program_id, accounts }),
    {
        Context { program_id, accounts }
    }
}

/// The accounts of an issuance on the asset ledger.
#[derive(Clone, Copy, Debug, PartialEq, Eq)]
pub struct MintTo {
    pub mint: Identity,
    pub to: Identity,
    pub authority: Identity,
}

/// The accounts of a transfer on the asset ledger.
#[derive(Clone, Copy, Debug, PartialEq, Eq)]
pub struct Transfer {
    pub from: Identity,
    pub to: Identity,
    pub authority: Identity,
}

/// An instruction for the asset ledger, ready to be sent: the ledger
/// program, the accounts, and the derived authority that signs it, if the
/// caller does not sign it.
#[derive(Clone, Copy, Debug, PartialEq, Eq)]
pub struct CpiContext<T> {
    pub program: Identity,
    pub accounts: T,
    pub signer: Option<DerivedAuthority>,
}

impl<T> CpiContext<T> {
    /// An instruction that the caller signs.
    pub fn new(program: Identity, accounts: T) -> (cpi: CpiContext<T>)
        ensures
            cpi == (CpiContext::<T> { program, accounts, signer: None }),
    {
        CpiContext { program, accounts, signer: None }
    }

    /// The same instruction, signed by a derived authority.
    pub fn with_signer(self, signer: DerivedAuthority) -> (cpi: CpiContext<T>)
        ensures
            cpi == (CpiContext::<T> {
                program: self.program,
                accounts: self.accounts,
                signer: Some(signer),
            }),
    {
        CpiContext { program: self.program, accounts: self.accounts, signer: Some(signer) }
    }
}

/// Accounts for creating the asset.
#[derive(Clone, Copy, Debug, PartialEq, Eq)]
pub struct InitializeMint {
    pub token_mint: Account<Mint>,
    pub mint_authority: Identity,
    pub payer: Identity,
}

/// Accounts for issuing units of the asset to a user's ledger account,
/// with the amount that the ledger holds in that account now.
#[derive(Clone, Copy, Debug, PartialEq, Eq)]
pub struct Airdrop {
    pub token_mint: Account<Mint>,
    pub mint_authority: Identity,
    pub user: Identity,
    pub user_token_account: Identity,
    pub user_token_amount: u64,
    pub token_program: Identity,
}

impl Airdrop {
    /// The issuance that an airdrop sends: to the user's ledger account,
    /// under the mint authority presented. Not yet signed.
    pub open spec fn mint_to_cpi(self) -> CpiContext<MintTo> {
        CpiContext {
            program: self.token_program,
            accounts: MintTo {
                mint: self.token_mint.key,
                to: self.user_token_account,
                authority: self.mint_authority,
            },
            signer: None,
        }
    }

    /// Builds the issuance of an airdrop.
    pub fn mint_to_ctx(&self) -> (cpi: CpiContext<MintTo>)
        ensures
            cpi == self.mint_to_cpi(),
    {
        let cpi_accounts = MintTo {
            mint: self.token_mint.key,
            to: self.user_token_account,
            authority: self.mint_authority,
        };
        CpiContext::new(self.token_program, cpi_accounts)
    }
}

/// Accounts for creating the pool and its vault.
#[derive(Clone, Copy, Debug, PartialEq, Eq)]
pub struct InitializeStakePool {
    pub token_mint: Account<Mint>,
    pub staking_pool: Account<StakingPool>,
    pub pool_authority: Identity,
    pub user: Identity,
    pub vault_token_account: Identity,
}

/// Accounts for creating a user's record.
#[derive(Clone, Copy, Debug, PartialEq, Eq)]
pub struct InitializeStateAccount {
    pub state_account: Account<StateAccount>,
    pub user: Identity,
}

/// Accounts for staking.
#[derive(Clone, Copy, Debug, PartialEq, Eq)]
pub struct Deposit {
    pub state_account: Account<StateAccount>,
    pub vault_token_account: Identity,
    pub staking_pool: Account<StakingPool>,
    pub user_token_account: Identity,
    pub user: Identity,
    pub token_program: Identity,
}

impl Deposit {
    /// The transfer that a deposit sends: from the user's ledger account to
    /// the vault, signed by the user.
    pub open spec fn deposit_cpi(self) -> CpiContext<Transfer> {
        CpiContext {
            program: self.token_program,
            accounts: Transfer {
                from: self.user_token_account,
                to: self.vault_token_account,
                authority: self.user,
            },
            signer: None,
        }
    }

    /// Builds the transfer of a deposit.
    pub fn deposit_ctx(&self) -> (cpi: CpiContext<Transfer>)
        ensures
            cpi == self.deposit_cpi(),
    {
        let cpi_accounts = Transfer {
            from: self.user_token_account,
            to: self.vault_token_account,
            authority: self.user,
        };
        CpiContext::new(self.token_program, cpi_accounts)
    }
}

/// Accounts for taking staked funds out.
#[derive(Clone, Copy, Debug, PartialEq, Eq)]
pub struct Withdraw {
    pub state_account: Account<StateAccount>,
    pub vault_token_account: Identity,
    pub staking_pool: Account<StakingPool>,
    pub pool_authority: Identity,
    pub user_token_account: Identity,
    pub user: Identity,
    pub token_program: Identity,
}

impl Withdraw {
    /// The transfer that a withdrawal sends: from the vault to the user's
    /// ledger account, under the pool authority presented. Not yet signed.
    pub open spec fn withdraw_cpi(self) -> CpiContext<Transfer> {
        CpiContext {
            program: self.token_program,
            accounts: Transfer {
                from: self.vault_token_account,
                to: self.user_token_account,
                authority: self.pool_authority,
            },
            signer: None,
        }
    }

    /// Builds the transfer of a withdrawal.
    pub fn withdraw_ctx(&self) -> (cpi: CpiContext<Transfer>)
        ensures
            cpi == self.withdraw_cpi(),
    {
        let cpi_accounts = Transfer {
            from: self.vault_token_account,
            to: self.user_token_account,
            authority: self.pool_authority,
        };
        CpiContext::new(self.token_program, cpi_accounts)
    }
}

} // verus!
