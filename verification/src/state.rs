use crate::identity::Identity;
use vstd::prelude::*;

verus! {

/// The asset: who may issue it and how many decimals its units have.
/// Created once; the protocol never changes it.
#[derive(Clone, Copy, Debug, PartialEq, Eq)]
pub struct Mint {
    pub mint_authority: Identity,
    pub decimals: u8,
}

/// The pool shared by all users: where the funds are held, who may move
/// them out, and how much is staked in total.
#[derive(Clone, Copy, Debug, PartialEq, Eq)]
pub struct StakingPool {
    pub vault_token_account: Identity,
    pub pool_authority: Identity,
    pub balance: u64,
}

/// One user's record: the owner and the amount the owner has staked.
#[derive(Clone, Copy, Debug, PartialEq, Eq)]
pub struct StateAccount {
    pub owner: Identity,
    pub balance: u64,
}

/// A slot of the account store: its address, and its contents once it has
/// been initialized.
#[derive(Clone, Copy, Debug, PartialEq, Eq)]
pub struct Account<T> {
    pub key: Identity,
    pub data: Option<T>,
}

impl<T> Account<T> {
    /// A slot that holds nothing yet.
    pub fn empty(key: Identity) -> (slot: Account<T>)
        ensures
            slot == (Account::<T> { key, data: None }),
    {
        Account { key, data: None }
    }

    /// A slot that holds `data`.
    pub fn holding(key: Identity, data: T) -> (slot: Account<T>)
        ensures
            slot == (Account::<T> { key, data: Some(data) }),
    {
        Account { key, data: Some(data) }
    }
}

/// The user's record and the pool after `amount` has been staked, or `None`
/// where either balance would leave the range of `u64`.
pub open spec fn credited(account: StateAccount, pool: StakingPool, amount: u64) -> Option<
    (StateAccount, StakingPool),
> {
    if account.balance + amount <= u64::MAX && pool.balance + amount <= u64::MAX {
        Some(
            (
                StateAccount { owner: account.owner, balance: (account.balance + amount) as u64 },
                StakingPool {
                    vault_token_account: pool.vault_token_account,
                    pool_authority: pool.pool_authority,
                    balance: (pool.balance + amount) as u64,
                },
            ),
        )
    } else {
        None
    }
}

/// The user's record and the pool after `amount` has been taken out, or
/// `None` where either balance is smaller than `amount`.
pub open spec fn debited(account: StateAccount, pool: StakingPool, amount: u64) -> Option<
    (StateAccount, StakingPool),
> {
    if amount <= account.balance && amount <= pool.balance {
        Some(
            (
                StateAccount { owner: account.owner, balance: (account.balance - amount) as u64 },
                StakingPool {
                    vault_token_account: pool.vault_token_account,
                    pool_authority: pool.pool_authority,
                    balance: (pool.balance - amount) as u64,
                },
            ),
        )
    } else {
        None
    }
}

/// Stakes `amount`: both balances grow by it, or neither changes.
pub fn credit(account: &StateAccount, pool: &StakingPool, amount: u64) -> (r: Option<
    (StateAccount, StakingPool),
>)
    ensures
        r == credited(*account, *pool, amount),
{
    match (account.balance.checked_add(amount), pool.balance.checked_add(amount)) {
        (Some(user_balance), Some(pool_balance)) => Some(
            (
                StateAccount { owner: account.owner, balance: user_balance },
                StakingPool {
                    vault_token_account: pool.vault_token_account,
                    pool_authority: pool.pool_authority,
                    balance: pool_balance,
                },
            ),
        ),
        _ => None,
    }
}

/// Takes `amount` out: both balances shrink by it, or neither changes.
pub fn debit(account: &StateAccount, pool: &StakingPool, amount: u64) -> (r: Option<
    (StateAccount, StakingPool),
>)
    ensures
        r == debited(*account, *pool, amount),
{
    match (account.balance.checked_sub(amount), pool.balance.checked_sub(amount)) {
        (Some(user_balance), Some(pool_balance)) => Some(
            (
                StateAccount { owner: account.owner, balance: user_balance },
                StakingPool {
                    vault_token_account: pool.vault_token_account,
                    pool_authority: pool.pool_authority,
                    balance: pool_balance,
                },
            ),
        ),
        _ => None,
    }
}

} // verus!
