use crate::authority::DerivedAuthority;
use crate::context::{
    Airdrop, Context, Deposit, InitializeMint, InitializeStakePool, InitializeStateAccount,
    Withdraw,
};
use crate::error::StakingError;
use crate::staking::{
    airdrop_spec, deposit_spec, initialize_mint_spec, initialize_staking_pool_spec,
    initialize_state_account_spec, withdraw_spec, StagedMint, StagedTransfer,
};
use crate::state::{credited, debited, StakingPool, StateAccount};
use vstd::prelude::*;

verus! {

/// The sum of what all users have staked.
pub open spec fn total_staked(users: Seq<StateAccount>) -> int
    decreases users.len(),
{
    if users.len() == 0 {
        0
    } else {
        total_staked(users.drop_last()) + users.last().balance
    }
}

/// The pool's balance is the sum of the users' balances.
pub open spec fn balanced(users: Seq<StateAccount>, pool: StakingPool) -> bool {
    pool.balance == total_staked(users)
}

/// A successful transition of the staking state: which user's record it
/// touches, and by how much.
pub enum Operation {
    Deposit { user: nat, amount: u64 },
    Withdraw { user: nat, amount: u64 },
}

/// The records after one operation, or `None` where the operation is
/// refused: an unknown user, a balance that would overflow, or a withdrawal
/// above a balance.
pub open spec fn step(users: Seq<StateAccount>, pool: StakingPool, op: Operation) -> Option<
    (Seq<StateAccount>, StakingPool),
> {
    match op {
        Operation::Deposit { user, amount } => if user < users.len() {
            match credited(users[user as int], pool, amount) {
                Some((record, pool_after)) => Some((users.update(user as int, record), pool_after)),
                None => None,
            }
        } else {
            None
        },
        Operation::Withdraw { user, amount } => if user < users.len() {
            match debited(users[user as int], pool, amount) {
                Some((record, pool_after)) => Some((users.update(user as int, record), pool_after)),
                None => None,
            }
        } else {
            None
        },
    }
}

/// The records after a sequence of operations, or `None` where one of them
/// is refused.
pub open spec fn run(users: Seq<StateAccount>, pool: StakingPool, ops: Seq<Operation>) -> Option<
    (Seq<StateAccount>, StakingPool),
>
    decreases ops.len(),
{
    if ops.len() == 0 {
        Some((users, pool))
    } else {
        match run(users, pool, ops.drop_last()) {
            Some((before, pool_before)) => step(before, pool_before, ops.last()),
            None => None,
        }
    }
}

/// Replacing one record changes the sum by the change of that record.
pub proof fn lemma_total_after_update(users: Seq<StateAccount>, i: int, record: StateAccount)
    requires
        0 <= i < users.len(),
    ensures
        total_staked(users.update(i, record)) == total_staked(users) - users[i].balance
            + record.balance,
    decreases users.len(),
{
    let updated = users.update(i, record);
    if i == users.len() - 1 {
        assert(updated.drop_last() =~= users.drop_last());
    } else {
        assert(updated.drop_last() =~= users.drop_last().update(i, record));
        lemma_total_after_update(users.drop_last(), i, record);
    }
}

/// No user has staked more than the sum of all stakes.
pub proof fn lemma_stake_within_total(users: Seq<StateAccount>, i: int)
    requires
        0 <= i < users.len(),
    ensures
        0 <= users[i].balance <= total_staked(users),
    decreases users.len(),
{
    lemma_total_nonnegative(users.drop_last());
    if i < users.len() - 1 {
        lemma_stake_within_total(users.drop_last(), i);
    }
}

/// The sum of all stakes is not negative.
pub proof fn lemma_total_nonnegative(users: Seq<StateAccount>)
    ensures
        0 <= total_staked(users),
    decreases users.len(),
{
    if users.len() > 0 {
        lemma_total_nonnegative(users.drop_last());
    }
}

/// Where nobody has staked anything, a pool with balance 0 is balanced:
/// the records as they are created satisfy the invariant.
pub proof fn lemma_fresh_records_balanced(users: Seq<StateAccount>, pool: StakingPool)
    requires
        pool.balance == 0,
        forall|i: int| 0 <= i < users.len() ==> (#[trigger] users[i]).balance == 0,
    ensures
        balanced(users, pool),
    decreases users.len(),
{
    if users.len() > 0 {
        let rest = users.drop_last();
        assert forall|i: int| 0 <= i < rest.len() implies (#[trigger] rest[i]).balance == 0 by {
            assert(rest[i] == users[i]);
        }
        lemma_fresh_records_balanced(rest, pool);
    }
}

/// One successful deposit or withdrawal keeps the pool's balance equal to
/// the sum of the users' balances.
pub proof fn lemma_step_keeps_balance(users: Seq<StateAccount>, pool: StakingPool, op: Operation)
    requires
        balanced(users, pool),
        step(users, pool, op) is Some,
    ensures
        step(users, pool, op) matches Some((after, pool_after)) && balanced(after, pool_after)
            && after.len() == users.len(),
{
    match op {
        Operation::Deposit { user, amount } => {
            let (record, _) = credited(users[user as int], pool, amount)->0;
            lemma_total_after_update(users, user as int, record);
        },
        Operation::Withdraw { user, amount } => {
            let (record, _) = debited(users[user as int], pool, amount)->0;
            lemma_total_after_update(users, user as int, record);
        },
    }
}

/// After every operation of a sequence of successful deposits and
/// withdrawals, the pool's balance is the sum of the users' balances, and
/// so no user's balance is above the pool's.
pub proof fn lemma_pool_matches_stakes(
    users: Seq<StateAccount>,
    pool: StakingPool,
    ops: Seq<Operation>,
    done: int,
)
    requires
        balanced(users, pool),
        run(users, pool, ops) is Some,
        0 <= done <= ops.len(),
    ensures
        run(users, pool, ops.take(done)) matches Some((after, pool_after)) && balanced(
            after,
            pool_after,
        ) && after.len() == users.len() && forall|i: int|
            0 <= i < users.len() ==> (#[trigger] after[i]).balance <= pool_after.balance,
    decreases ops.len(),
{
    if done < ops.len() {
        assert(ops.drop_last().take(done) =~= ops.take(done));
        lemma_pool_matches_stakes(users, pool, ops.drop_last(), done);
    } else {
        assert(ops.take(done) =~= ops);
        if ops.len() > 0 {
            let rest = ops.drop_last();
            lemma_pool_matches_stakes(users, pool, rest, rest.len() as int);
            assert(rest.take(rest.len() as int) =~= rest);
            let (before, pool_before) = run(users, pool, rest)->0;
            lemma_step_keeps_balance(before, pool_before, ops.last());
        }
        let (after, pool_after) = run(users, pool, ops)->0;
        assert forall|i: int| 0 <= i < users.len() implies (#[trigger] after[i]).balance
            <= pool_after.balance by {
            lemma_stake_within_total(after, i);
        }
    }
}

/// A deposit that is accepted stages exactly the credited records, and a
/// withdrawal that is accepted exactly the debited ones: the transitions
/// of `step` are those of the operations.
pub proof fn lemma_operations_stage_steps(
    deposit: Context<Deposit>,
    withdraw: Context<Withdraw>,
    amount: u64,
    authority: Option<DerivedAuthority>,
)
    ensures
        deposit_spec(deposit, amount) matches Ok(staged) ==> credited(
            deposit.accounts.state_account.data->0,
            deposit.accounts.staking_pool.data->0,
            amount,
        ) == Some((staged.state_account, staged.staking_pool)) && staged.amount == amount,
        withdraw_spec(withdraw, amount, authority) matches Ok(staged) ==> debited(
            withdraw.accounts.state_account.data->0,
            withdraw.accounts.staking_pool.data->0,
            amount,
        ) == Some((staged.state_account, staged.staking_pool)) && staged.amount == amount,
{
}

/// A withdrawal by the owner, under the right authority and on the pool's
/// own vault, that asks for more than the owner has staked is refused with
/// `InsufficientBalance`. A refused request stages nothing, so no balance
/// changes.
pub proof fn lemma_overdraw_refused(
    ctx: Context<Withdraw>,
    amount: u64,
    authority: DerivedAuthority,
)
    requires
        ctx.accounts.pool_authority == authority.address,
        ctx.accounts.state_account.data matches Some(record) && record.owner == ctx.accounts.user
            && amount > record.balance,
        ctx.accounts.staking_pool.data matches Some(pool) && pool.pool_authority
            == authority.address && pool.vault_token_account == ctx.accounts.vault_token_account,
    ensures
        withdraw_spec(ctx, amount, Some(authority)) == Err::<StagedTransfer, StakingError>(
            StakingError::InsufficientBalance,
        ),
{
}

/// A withdrawal is accepted only for an amount within the user's balance,
/// and the balance it stages is the old one less the amount.
pub proof fn lemma_withdraw_within_balance(
    ctx: Context<Withdraw>,
    amount: u64,
    authority: Option<DerivedAuthority>,
)
    requires
        withdraw_spec(ctx, amount, authority) is Ok,
    ensures
        amount <= ctx.accounts.state_account.data->0.balance,
        withdraw_spec(ctx, amount, authority)->Ok_0.state_account.balance
            == ctx.accounts.state_account.data->0.balance - amount,
        withdraw_spec(ctx, amount, authority)->Ok_0.staking_pool.balance
            == ctx.accounts.staking_pool.data->0.balance - amount,
{
}

/// A deposit on a user's record or a pool that does not exist is refused
/// with `NotFound`, whatever else the request holds.
pub proof fn lemma_deposit_needs_records(ctx: Context<Deposit>, amount: u64)
    requires
        ctx.accounts.state_account.data is None || ctx.accounts.staking_pool.data is None,
    ensures
        deposit_spec(ctx, amount) == Err::<StagedTransfer, StakingError>(StakingError::NotFound),
{
}

/// A properly signed airdrop is staged exactly when the target account can
/// hold the amount on top of what it holds; otherwise it is refused with
/// `ArithmeticOverflow`.
pub proof fn lemma_airdrop_within_range(
    ctx: Context<Airdrop>,
    amount: u64,
    authority: DerivedAuthority,
)
    requires
        ctx.accounts.mint_authority == authority.address,
        ctx.accounts.token_mint.data matches Some(mint) && mint.mint_authority
            == authority.address,
    ensures
        ctx.accounts.user_token_amount + amount > u64::MAX ==> airdrop_spec(
            ctx,
            amount,
            Some(authority),
        ) == Err::<StagedMint, StakingError>(StakingError::ArithmeticOverflow),
        ctx.accounts.user_token_amount + amount <= u64::MAX ==> airdrop_spec(
            ctx,
            amount,
            Some(authority),
        ) is Ok,
        airdrop_spec(ctx, amount, Some(authority)) matches Ok(staged) ==> staged.amount == amount,
{
}

/// Creating the asset, the pool or a user's record a second time fails
/// with `AlreadyInitialized` and leaves every account as it was, whatever
/// the derivation gives.
pub proof fn lemma_reinitialize_refused(
    mint: Context<InitializeMint>,
    decimals: u8,
    pool: Context<InitializeStakePool>,
    user: Context<InitializeStateAccount>,
    authority: Option<DerivedAuthority>,
)
    ensures
        mint.accounts.token_mint.data is Some ==> initialize_mint_spec(mint, decimals, authority)
            == (mint, Err::<(), _>(StakingError::AlreadyInitialized)),
        pool.accounts.staking_pool.data is Some ==> initialize_staking_pool_spec(pool, authority)
            == (pool, Err::<(), _>(StakingError::AlreadyInitialized)),
        user.accounts.state_account.data is Some ==> initialize_state_account_spec(user) == (
            user,
            Err::<(), _>(StakingError::AlreadyInitialized),
        ),
{
}

/// Staking an amount and taking the same amount out again gives back the
/// records as they were.
pub proof fn lemma_credit_then_debit(account: StateAccount, pool: StakingPool, amount: u64)
    requires
        credited(account, pool, amount) is Some,
    ensures
        credited(account, pool, amount) matches Some((staked, pool_after)) && debited(
            staked,
            pool_after,
            amount,
        ) == Some((account, pool)),
{
}

/// A deposit that the ledger carried out, followed by a withdrawal of the
/// same amount by the same user from the same pool, stages the user's
/// balance and the pool's balance as they were before the deposit.
pub proof fn lemma_deposit_then_withdraw(
    deposit: Context<Deposit>,
    withdraw: Context<Withdraw>,
    amount: u64,
    authority: DerivedAuthority,
)
    requires
        deposit_spec(deposit, amount) is Ok,
        withdraw.accounts.state_account.data == Some(
            deposit_spec(deposit, amount)->Ok_0.state_account,
        ),
        withdraw.accounts.staking_pool.data == Some(
            deposit_spec(deposit, amount)->Ok_0.staking_pool,
        ),
        withdraw.accounts.user == deposit.accounts.user,
        withdraw.accounts.vault_token_account == deposit.accounts.vault_token_account,
        withdraw.accounts.pool_authority == authority.address,
        deposit.accounts.staking_pool.data->0.pool_authority == authority.address,
    ensures
        withdraw_spec(withdraw, amount, Some(authority)) is Ok,
        withdraw_spec(withdraw, amount, Some(authority))->Ok_0.state_account
            == deposit.accounts.state_account.data->0,
        withdraw_spec(withdraw, amount, Some(authority))->Ok_0.staking_pool
            == deposit.accounts.staking_pool.data->0,
{
    let account = deposit.accounts.state_account.data->0;
    let pool = deposit.accounts.staking_pool.data->0;
    lemma_credit_then_debit(account, pool, amount);
}

/// A withdrawal or an airdrop under an authority other than the derived
/// one is refused with `Unauthorized`, and so is a deposit or a withdrawal
/// by anyone but the owner of the record, where the records exist.
pub proof fn lemma_wrong_signer_refused(
    deposit: Context<Deposit>,
    withdraw: Context<Withdraw>,
    airdrop: Context<Airdrop>,
    amount: u64,
    authority: DerivedAuthority,
)
    ensures
        withdraw.accounts.pool_authority != authority.address ==> withdraw_spec(
            withdraw,
            amount,
            Some(authority),
        ) == Err::<StagedTransfer, StakingError>(StakingError::Unauthorized),
        airdrop.accounts.mint_authority != authority.address ==> airdrop_spec(
            airdrop,
            amount,
            Some(authority),
        ) == Err::<StagedMint, StakingError>(StakingError::Unauthorized),
        deposit.accounts.state_account.data matches Some(record) && record.owner
            != deposit.accounts.user && deposit.accounts.staking_pool.data is Some
            ==> deposit_spec(deposit, amount) == Err::<StagedTransfer, StakingError>(
            StakingError::Unauthorized,
        ),
        withdraw.accounts.state_account.data matches Some(record) && record.owner
            != withdraw.accounts.user && withdraw.accounts.pool_authority == authority.address
            ==> withdraw_spec(withdraw, amount, Some(authority)) == Err::<
            StagedTransfer,
            StakingError,
        >(StakingError::Unauthorized),
        withdraw_spec(withdraw, amount, Some(authority)) matches Ok(staged) ==> staged.cpi.signer
            == Some(authority) && staged.cpi.accounts.authority == authority.address,
        airdrop_spec(airdrop, amount, Some(authority)) matches Ok(staged) ==> staged.cpi.signer
            == Some(authority) && staged.cpi.accounts.authority == authority.address,
        deposit_spec(deposit, amount) matches Ok(staged) ==> staged.cpi.signer is None
            && staged.cpi.accounts.authority == deposit.accounts.state_account.data->0.owner,
{
}

} // verus!
