use crate::authority::{derived, find_authority, DerivedAuthority, Namespace};
use crate::context::{
    Airdrop, Context, CpiContext, Deposit, InitializeMint, InitializeStakePool,
    InitializeStateAccount, MintTo, Transfer, Withdraw,
};
use crate::error::StakingError;
use crate::state::{credit, credited, debit, debited, Account, Mint, StakingPool, StateAccount};
use vstd::prelude::*;

verus! {

/// An issuance that has passed every check and waits for the ledger.
#[derive(Clone, Copy, Debug, PartialEq, Eq)]
pub struct StagedMint {
    pub cpi: CpiContext<MintTo>,
    pub amount: u64,
}

/// A transfer that has passed every check and waits for the ledger, with
/// the records as they will read once the ledger has carried it out.
#[derive(Clone, Copy, Debug, PartialEq, Eq)]
pub struct StagedTransfer {
    pub cpi: CpiContext<Transfer>,
    pub amount: u64,
    pub state_account: StateAccount,
    pub staking_pool: StakingPool,
}

/// What creating the asset does, given the mint authority that the
/// derivation gave: the accounts afterwards and the result.
pub open spec fn initialize_mint_spec(
    ctx: Context<InitializeMint>,
    decimals: u8,
    authority: Option<DerivedAuthority>,
) -> (Context<InitializeMint>, Result<(), StakingError>) {
    if ctx.accounts.token_mint.data is Some {
        (ctx, Err(StakingError::AlreadyInitialized))
    } else if authority is None {
        (ctx, Err(StakingError::DerivationNotFound))
    } else if ctx.accounts.mint_authority != authority->0.address {
        (ctx, Err(StakingError::Unauthorized))
    } else {
        (
            Context {
                program_id: ctx.program_id,
                accounts: InitializeMint {
                    token_mint: Account {
                        key: ctx.accounts.token_mint.key,
                        data: Some(Mint { mint_authority: authority->0.address, decimals }),
                    },
                    mint_authority: ctx.accounts.mint_authority,
                    payer: ctx.accounts.payer,
                },
            },
            Ok(()),
        )
    }
}

/// Creates the asset, given what the derivation of the mint authority
/// came to. An existing asset is left as it is and reported as
/// `AlreadyInitialized`; a mint authority other than the derived one is
/// `Unauthorized`.
pub fn initialize_mint_with_authority(
    ctx: &mut Context<InitializeMint>,
    decimals: u8,
    found: Option<DerivedAuthority>,
) -> (r: Result<(), StakingError>)
    ensures
        (*final(ctx), r) == initialize_mint_spec(*old(ctx), decimals, found),
{
    if ctx.accounts.token_mint.data.is_some() {
        return Err(StakingError::AlreadyInitialized);
    }
    let authority = match found {
        None => { return Err(StakingError::DerivationNotFound); },
        Some(authority) => authority,
    };
    if ctx.accounts.mint_authority != authority.address {
        return Err(StakingError::Unauthorized);
    }
    ctx.accounts.token_mint.data = Some(Mint { mint_authority: authority.address, decimals });
    Ok(())
}

/// Creates the asset with `decimals` decimals, to be issued by the derived
/// mint authority alone.
pub fn initialize_mint(ctx: &mut Context<InitializeMint>, decimals: u8) -> (r: Result<
    (),
    StakingError,
>)
    ensures
        (*final(ctx), r) == initialize_mint_spec(
            *old(ctx),
            decimals,
            derived(old(ctx).program_id, Namespace::MintAuthority, None),
        ),
{
    if ctx.accounts.token_mint.data.is_some() {
        return Err(StakingError::AlreadyInitialized);
    }
    let found = find_authority(&ctx.program_id, Namespace::MintAuthority, None);
    initialize_mint_with_authority(ctx, decimals, found)
}

/// What an airdrop request comes to, given the mint authority that the
/// derivation gave.
pub open spec fn airdrop_spec(
    ctx: Context<Airdrop>,
    amount: u64,
    authority: Option<DerivedAuthority>,
) -> Result<StagedMint, StakingError> {
    if authority is None {
        Err(StakingError::DerivationNotFound)
    } else if ctx.accounts.mint_authority != authority->0.address {
        Err(StakingError::Unauthorized)
    } else if ctx.accounts.token_mint.data is None {
        Err(StakingError::NotFound)
    } else if ctx.accounts.token_mint.data->0.mint_authority != authority->0.address {
        Err(StakingError::Unauthorized)
    } else if ctx.accounts.user_token_amount + amount > u64::MAX {
        Err(StakingError::ArithmeticOverflow)
    } else {
        Ok(
            StagedMint {
                cpi: CpiContext {
                    program: ctx.accounts.token_program,
                    accounts: ctx.accounts.mint_to_cpi().accounts,
                    signer: authority,
                },
                amount,
            },
        )
    }
}

/// Checks an airdrop, given what the derivation of the mint authority came
/// to, and stages the issuance signed by that authority. Any amount that
/// the target account can hold is accepted, zero too; one that would take
/// the account past the range of `u64` is `ArithmeticOverflow`. No record
/// of the protocol is read for its balance or changed.
pub fn airdrop_with_authority(
    ctx: &Context<Airdrop>,
    amount: u64,
    found: Option<DerivedAuthority>,
) -> (r: Result<StagedMint, StakingError>)
    ensures
        r == airdrop_spec(*ctx, amount, found),
{
    let authority = match found {
        None => { return Err(StakingError::DerivationNotFound); },
        Some(authority) => authority,
    };
    if ctx.accounts.mint_authority != authority.address {
        return Err(StakingError::Unauthorized);
    }
    match ctx.accounts.token_mint.data {
        None => Err(StakingError::NotFound),
        Some(mint) => {
            if mint.mint_authority != authority.address {
                return Err(StakingError::Unauthorized);
            }
            if ctx.accounts.user_token_amount.checked_add(amount).is_none() {
                return Err(StakingError::ArithmeticOverflow);
            }
            let mint_to_cex = ctx.accounts.mint_to_ctx().with_signer(authority);
            Ok(StagedMint { cpi: mint_to_cex, amount })
        },
    }
}

/// Stages the issuance of `amount` units to the user's ledger account,
/// signed by the derived mint authority.
pub fn airdrop(ctx: &Context<Airdrop>, amount: u64) -> (r: Result<StagedMint, StakingError>)
    ensures
        r == airdrop_spec(*ctx, amount, derived(ctx.program_id, Namespace::MintAuthority, None)),
{
    let found = find_authority(&ctx.program_id, Namespace::MintAuthority, None);
    airdrop_with_authority(ctx, amount, found)
}

/// What creating the pool does, given the pool authority that the
/// derivation gave: the accounts afterwards and the result.
pub open spec fn initialize_staking_pool_spec(
    ctx: Context<InitializeStakePool>,
    authority: Option<DerivedAuthority>,
) -> (Context<InitializeStakePool>, Result<(), StakingError>) {
    if ctx.accounts.staking_pool.data is Some {
        (ctx, Err(StakingError::AlreadyInitialized))
    } else if authority is None {
        (ctx, Err(StakingError::DerivationNotFound))
    } else if ctx.accounts.pool_authority != authority->0.address {
        (ctx, Err(StakingError::Unauthorized))
    } else if ctx.accounts.token_mint.data is None {
        (ctx, Err(StakingError::NotFound))
    } else {
        (
            Context {
                program_id: ctx.program_id,
                accounts: InitializeStakePool {
                    token_mint: ctx.accounts.token_mint,
                    staking_pool: Account {
                        key: ctx.accounts.staking_pool.key,
                        data: Some(
                            StakingPool {
                                vault_token_account: ctx.accounts.vault_token_account,
                                pool_authority: authority->0.address,
                                balance: 0,
                            },
                        ),
                    },
                    pool_authority: ctx.accounts.pool_authority,
                    user: ctx.accounts.user,
                    vault_token_account: ctx.accounts.vault_token_account,
                },
            },
            Ok(()),
        )
    }
}

/// Creates the pool, given what the derivation of the pool authority came
/// to. An existing pool is left as it is and reported as
/// `AlreadyInitialized`.
pub fn initialize_staking_pool_with_authority(
    ctx: &mut Context<InitializeStakePool>,
    found: Option<DerivedAuthority>,
) -> (r: Result<(), StakingError>)
    ensures
        (*final(ctx), r) == initialize_staking_pool_spec(*old(ctx), found),
{
    if ctx.accounts.staking_pool.data.is_some() {
        return Err(StakingError::AlreadyInitialized);
    }
    let authority = match found {
        None => { return Err(StakingError::DerivationNotFound); },
        Some(authority) => authority,
    };
    if ctx.accounts.pool_authority != authority.address {
        return Err(StakingError::Unauthorized);
    }
    if ctx.accounts.token_mint.data.is_none() {
        return Err(StakingError::NotFound);
    }
    ctx.accounts.staking_pool.data = Some(
        StakingPool {
            vault_token_account: ctx.accounts.vault_token_account,
            pool_authority: authority.address,
            balance: 0,
        },
    );
    Ok(())
}

/// Creates the pool with nothing staked, its vault under the derived pool
/// authority.
pub fn initialize_staking_pool(ctx: &mut Context<InitializeStakePool>) -> (r: Result<
    (),
    StakingError,
>)
    ensures
        (*final(ctx), r) == initialize_staking_pool_spec(
            *old(ctx),
            derived(old(ctx).program_id, Namespace::PoolAuthority, None),
        ),
{
    if ctx.accounts.staking_pool.data.is_some() {
        return Err(StakingError::AlreadyInitialized);
    }
    let found = find_authority(&ctx.program_id, Namespace::PoolAuthority, None);
    initialize_staking_pool_with_authority(ctx, found)
}

/// What creating a user's record does: the accounts afterwards and the
/// result.
pub open spec fn initialize_state_account_spec(ctx: Context<InitializeStateAccount>) -> (
    Context<InitializeStateAccount>,
    Result<(), StakingError>,
) {
    if ctx.accounts.state_account.data is Some {
        (ctx, Err(StakingError::AlreadyInitialized))
    } else {
        (
            Context {
                program_id: ctx.program_id,
                accounts: InitializeStateAccount {
                    state_account: Account {
                        key: ctx.accounts.state_account.key,
                        data: Some(StateAccount { owner: ctx.accounts.user, balance: 0 }),
                    },
                    user: ctx.accounts.user,
                },
            },
            Ok(()),
        )
    }
}

/// Creates the caller's record with nothing staked. An existing record is
/// left as it is and reported as `AlreadyInitialized`.
pub fn initialize_state_account(ctx: &mut Context<InitializeStateAccount>) -> (r: Result<
    (),
    StakingError,
>)
    ensures
        (*final(ctx), r) == initialize_state_account_spec(*old(ctx)),
{
    if ctx.accounts.state_account.data.is_some() {
        return Err(StakingError::AlreadyInitialized);
    }
    ctx.accounts.state_account.data = Some(StateAccount { owner: ctx.accounts.user, balance: 0 });
    Ok(())
}

/// What a deposit request comes to.
pub open spec fn deposit_spec(ctx: Context<Deposit>, amount: u64) -> Result<
    StagedTransfer,
    StakingError,
> {
    let accounts = ctx.accounts;
    if accounts.state_account.data is None || accounts.staking_pool.data is None {
        Err(StakingError::NotFound)
    } else if accounts.state_account.data->0.owner != accounts.user {
        Err(StakingError::Unauthorized)
    } else if accounts.staking_pool.data->0.vault_token_account != accounts.vault_token_account {
        Err(StakingError::Unauthorized)
    } else {
        match credited(accounts.state_account.data->0, accounts.staking_pool.data->0, amount) {
            None => Err(StakingError::ArithmeticOverflow),
            Some((state_account, staking_pool)) => Ok(
                StagedTransfer { cpi: accounts.deposit_cpi(), amount, state_account, staking_pool },
            ),
        }
    }
}

/// Checks a deposit and stages it: the transfer from the user's ledger
/// account to the vault, signed by the user, and both balances raised by
/// `amount`. A missing record is reported before anything is compared.
/// Nothing is changed before the ledger has answered.
pub fn deposit(ctx: &Context<Deposit>, amount: u64) -> (r: Result<StagedTransfer, StakingError>)
    ensures
        r == deposit_spec(*ctx, amount),
{
    let state_account = match ctx.accounts.state_account.data {
        None => { return Err(StakingError::NotFound); },
        Some(record) => record,
    };
    let staking_pool = match ctx.accounts.staking_pool.data {
        None => { return Err(StakingError::NotFound); },
        Some(record) => record,
    };
    if state_account.owner != ctx.accounts.user {
        return Err(StakingError::Unauthorized);
    }
    if staking_pool.vault_token_account != ctx.accounts.vault_token_account {
        return Err(StakingError::Unauthorized);
    }
    match credit(&state_account, &staking_pool, amount) {
        None => Err(StakingError::ArithmeticOverflow),
        Some((state_account, staking_pool)) => {
            let deposit_cex = ctx.accounts.deposit_ctx();
            Ok(StagedTransfer { cpi: deposit_cex, amount, state_account, staking_pool })
        },
    }
}

/// What a withdrawal request comes to, given the pool authority that the
/// derivation gave.
pub open spec fn withdraw_spec(
    ctx: Context<Withdraw>,
    amount: u64,
    authority: Option<DerivedAuthority>,
) -> Result<StagedTransfer, StakingError> {
    let accounts = ctx.accounts;
    if authority is None {
        Err(StakingError::DerivationNotFound)
    } else if accounts.pool_authority != authority->0.address {
        Err(StakingError::Unauthorized)
    } else if accounts.state_account.data is None {
        Err(StakingError::NotFound)
    } else if accounts.state_account.data->0.owner != accounts.user {
        Err(StakingError::Unauthorized)
    } else if accounts.staking_pool.data is None {
        Err(StakingError::NotFound)
    } else if accounts.staking_pool.data->0.pool_authority != authority->0.address
        || accounts.staking_pool.data->0.vault_token_account != accounts.vault_token_account {
        Err(StakingError::Unauthorized)
    } else if amount > accounts.state_account.data->0.balance {
        Err(StakingError::InsufficientBalance)
    } else {
        match debited(accounts.state_account.data->0, accounts.staking_pool.data->0, amount) {
            None => Err(StakingError::ArithmeticOverflow),
            Some((state_account, staking_pool)) => Ok(
                StagedTransfer {
                    cpi: CpiContext {
                        program: accounts.token_program,
                        accounts: accounts.withdraw_cpi().accounts,
                        signer: authority,
                    },
                    amount,
                    state_account,
                    staking_pool,
                },
            ),
        }
    }
}

/// Checks a withdrawal, given what the derivation of the pool authority
/// came to, and stages it: the transfer from the vault to the user's ledger
/// account, signed by that authority, and both balances lowered by
/// `amount`. Nothing is changed before the ledger has answered.
pub fn withdraw_with_authority(
    ctx: &Context<Withdraw>,
    amount: u64,
    found: Option<DerivedAuthority>,
) -> (r: Result<StagedTransfer, StakingError>)
    ensures
        r == withdraw_spec(*ctx, amount, found),
{
    let authority = match found {
        None => { return Err(StakingError::DerivationNotFound); },
        Some(authority) => authority,
    };
    if ctx.accounts.pool_authority != authority.address {
        return Err(StakingError::Unauthorized);
    }
    let state_account = match ctx.accounts.state_account.data {
        None => { return Err(StakingError::NotFound); },
        Some(record) => record,
    };
    if state_account.owner != ctx.accounts.user {
        return Err(StakingError::Unauthorized);
    }
    let staking_pool = match ctx.accounts.staking_pool.data {
        None => { return Err(StakingError::NotFound); },
        Some(record) => record,
    };
    if staking_pool.pool_authority != authority.address {
        return Err(StakingError::Unauthorized);
    }
    if staking_pool.vault_token_account != ctx.accounts.vault_token_account {
        return Err(StakingError::Unauthorized);
    }
    if amount > state_account.balance {
        return Err(StakingError::InsufficientBalance);
    }
    match debit(&state_account, &staking_pool, amount) {
        None => Err(StakingError::ArithmeticOverflow),
        Some((state_account, staking_pool)) => {
            let withdraw_cex = ctx.accounts.withdraw_ctx().with_signer(authority);
            Ok(StagedTransfer { cpi: withdraw_cex, amount, state_account, staking_pool })
        },
    }
}

/// Stages the withdrawal of `amount` from the caller's stake, signed by the
/// derived pool authority.
pub fn withdraw(ctx: &Context<Withdraw>, amount: u64) -> (r: Result<StagedTransfer, StakingError>)
    ensures
        r == withdraw_spec(*ctx, amount, derived(ctx.program_id, Namespace::PoolAuthority, None)),
{
    let found = find_authority(&ctx.program_id, Namespace::PoolAuthority, None);
    withdraw_with_authority(ctx, amount, found)
}

/// What the ledger's answer means for the operation: success, or the
/// ledger's own code passed on.
pub open spec fn confirmed(outcome: Result<(), u64>) -> Result<(), StakingError> {
    match outcome {
        Ok(_) => Ok(()),
        Err(code) => Err(StakingError::LedgerError(code)),
    }
}

/// Turns the ledger's answer to a staged instruction into the result of the
/// operation.
pub fn confirm(outcome: Result<(), u64>) -> (r: Result<(), StakingError>)
    ensures
        r == confirmed(outcome),
{
    match outcome {
        Ok(_) => Ok(()),
        Err(code) => Err(StakingError::LedgerError(code)),
    }
}

/// Finishes a staged transfer with the ledger's answer. Where the ledger
/// carried the transfer out, both records take their staged contents;
/// where it refused, neither record changes and its code is passed on.
pub fn settle(
    state_account: &mut Account<StateAccount>,
    staking_pool: &mut Account<StakingPool>,
    staged: &StagedTransfer,
    outcome: Result<(), u64>,
) -> (r: Result<(), StakingError>)
    ensures
        r == confirmed(outcome),
        final(state_account).key == old(state_account).key,
        final(staking_pool).key == old(staking_pool).key,
        outcome is Ok ==> final(state_account).data == Some(staged.state_account)
            && final(staking_pool).data == Some(staged.staking_pool),
        outcome is Err ==> *final(state_account) == *old(state_account) && *final(staking_pool)
            == *old(staking_pool),
{
    match outcome {
        Ok(_) => {
            state_account.data = Some(staged.state_account);
            staking_pool.data = Some(staged.staking_pool);
            Ok(())
        },
        Err(code) => Err(StakingError::LedgerError(code)),
    }
}

} // verus!
