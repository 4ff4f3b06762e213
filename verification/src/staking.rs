use vstd::prelude::*;
use crate::reward::{
    accrued_reward, accrued_reward_fits, compute_reward, elapsed, reward_fits, reward_lock_over,
};
use crate::transfer::{
    nft_return, reward_payment, transfer, TokenAccountRole, TokenTransfer, TransferAuthority,
};
use crate::ledger::{entry_mint, entry_rate, get_reward_rate, has_entry};
use crate::types::{same_address, Address, Pool, PoolError, UserData, PERIOD};

verus! {

/// The deposit limit that no pool without a cap sets.
pub const UNCAPPED_LIMIT: u64 = 1_000_000_000_000;

/// The accounts that a deposit reads and writes, and the clock's time.
pub struct Deposit {
    pub pool: Pool,
    pub user_data: UserData,
    /// The Unix time that the clock sysvar holds.
    pub clock: i64,
}

/// The most that a user whose NFT grants `reward_rate` may have staked: a
/// capped pool allows three quarters of its limit to rates in [20, 30) and half
/// of it to rates in [30, 40).
pub open spec fn deposit_cap(deposit_limit: u64, reward_rate: u64) -> int {
    if deposit_limit != UNCAPPED_LIMIT && 30 <= reward_rate < 40 {
        (deposit_limit / 2) as int
    } else if deposit_limit != UNCAPPED_LIMIT && 20 <= reward_rate < 30 {
        deposit_limit * 3 / 4
    } else {
        deposit_limit as int
    }
}

/// A deposit of `amount` would exceed the user's cap.
pub open spec fn deposit_exceeds_cap(pool: Pool, user: UserData, amount: u64) -> bool {
    user.stake_amount + amount > deposit_cap(pool.deposit_limit, user.reward_rate)
}

/// A deposit pays the reward accrued on the unrequested stake once the lock is over.
pub open spec fn deposit_reward_due(pool: Pool, user: UserData, now: i64) -> bool {
    user.stake_amount - user.withdraw_amount > 0 && reward_lock_over(pool, user, now)
}

/// The reward that a deposit pays when it is due.
pub open spec fn deposit_reward(user: UserData, now: i64) -> int {
    accrued_reward(
        user.stake_amount - user.withdraw_amount,
        user.reward_rate as int,
        elapsed(now, user.last_time),
    )
}

/// No arithmetic of a deposit leaves `u64`.
pub open spec fn deposit_defined(pool: Pool, user: UserData, amount: u64, now: i64) -> bool {
    &&& (pool.deposit_limit != UNCAPPED_LIMIT && 20 <= user.reward_rate < 30 ==> pool.deposit_limit
        * 3 <= u64::MAX)
    &&& user.stake_amount + amount <= u64::MAX
    &&& (!deposit_exceeds_cap(pool, user, amount) ==> {
        &&& amount * 6 <= u64::MAX
        &&& user.withdraw_amount <= user.stake_amount
        &&& (user.stake_amount - user.withdraw_amount > 0 ==> {
            &&& now as u64 >= user.last_time
            &&& pool.reward_lock_period * PERIOD <= u64::MAX
            &&& (reward_lock_over(pool, user, now) ==> {
                &&& accrued_reward_fits(
                    user.stake_amount - user.withdraw_amount,
                    user.reward_rate as int,
                    elapsed(now, user.last_time),
                )
                &&& pool.reward + deposit_reward(user, now) <= u64::MAX
            })
        })
        &&& pool.tvl + amount <= u64::MAX
    })
}

/// The transfers of a deposit: four tenths to the pool, six tenths to the
/// trader, then the reward when it is due.
pub open spec fn deposit_transfers(pool: Pool, user: UserData, amount: u64, now: i64) -> Seq<
    TokenTransfer,
> {
    seq![
        transfer(TokenAccountRole::UserToken, TokenAccountRole::PoolToken, TransferAuthority::Owner, amount * 4 / 10),
        transfer(TokenAccountRole::UserToken, TokenAccountRole::Trader, TransferAuthority::Owner, amount * 6 / 10),
    ] + if deposit_reward_due(pool, user, now) {
        seq![reward_payment(deposit_reward(user, now))]
    } else {
        Seq::empty()
    }
}

/// The pool after a deposit.
pub open spec fn deposit_pool(pool: Pool, user: UserData, amount: u64, now: i64) -> Pool {
    Pool {
        reward: if deposit_reward_due(pool, user, now) {
            (pool.reward + deposit_reward(user, now)) as u64
        } else {
            pool.reward
        },
        tvl: (pool.tvl + amount) as u64,
        ..pool
    }
}

/// The user's stake after a deposit.
pub open spec fn deposit_user(user: UserData, amount: u64, now: i64) -> UserData {
    UserData { stake_amount: (user.stake_amount + amount) as u64, last_time: now as u64, ..user }
}

/// Stakes `amount` tokens: refused with `InvalidStakeAmount` when the stake
/// would pass the user's cap; otherwise the tokens go to the pool and the
/// trader, the reward accrued so far is paid when the lock is over, and the
/// stake, the clock of the stake and the pool's total grow.
pub fn deposit(ctx: &mut Deposit, amount: u64) -> (r: Result<Vec<TokenTransfer>, PoolError>)
    requires
        deposit_defined(old(ctx).pool, old(ctx).user_data, amount, old(ctx).clock),
    ensures
        final(ctx).clock == old(ctx).clock,
        r is Err <==> deposit_exceeds_cap(old(ctx).pool, old(ctx).user_data, amount),
        r matches Err(e) ==> e == PoolError::InvalidStakeAmount && final(ctx).pool == old(ctx).pool
            && final(ctx).user_data == old(ctx).user_data,
        r matches Ok(t) ==> {
            &&& t@ == deposit_transfers(old(ctx).pool, old(ctx).user_data, amount, old(ctx).clock)
            &&& final(ctx).pool == deposit_pool(old(ctx).pool, old(ctx).user_data, amount, old(ctx).clock)
            &&& final(ctx).user_data == deposit_user(old(ctx).user_data, amount, old(ctx).clock)
        },
{
    let mut limit = ctx.pool.deposit_limit;
    if ctx.pool.deposit_limit != UNCAPPED_LIMIT && ctx.user_data.reward_rate >= 10
        && ctx.user_data.reward_rate < 20 {
        limit = ctx.pool.deposit_limit;
    }
    if ctx.pool.deposit_limit != UNCAPPED_LIMIT && ctx.user_data.reward_rate >= 20
        && ctx.user_data.reward_rate < 30 {
        limit = ctx.pool.deposit_limit * 3 / 4;
    }
    if ctx.pool.deposit_limit != UNCAPPED_LIMIT && ctx.user_data.reward_rate >= 30
        && ctx.user_data.reward_rate < 40 {
        limit = ctx.pool.deposit_limit / 2;
    }
    if ctx.user_data.stake_amount + amount > limit {
        return Err(PoolError::InvalidStakeAmount);
    }
    let mut transfers: Vec<TokenTransfer> = Vec::new();
    transfers.push(
        TokenTransfer {
            from: TokenAccountRole::UserToken,
            to: TokenAccountRole::PoolToken,
            authority: TransferAuthority::Owner,
            amount: amount * 4 / 10,
        },
    );
    transfers.push(
        TokenTransfer {
            from: TokenAccountRole::UserToken,
            to: TokenAccountRole::Trader,
            authority: TransferAuthority::Owner,
            amount: amount * 6 / 10,
        },
    );
    let now = ctx.clock as u64;
    if ctx.user_data.stake_amount - ctx.user_data.withdraw_amount > 0 && now - ctx.user_data.last_time
        > ctx.pool.reward_lock_period * PERIOD as u64 {
        let total_reward_amount = compute_reward(
            ctx.user_data.stake_amount - ctx.user_data.withdraw_amount,
            ctx.user_data.reward_rate,
            now - ctx.user_data.last_time,
        );
        transfers.push(
            TokenTransfer {
                from: TokenAccountRole::PoolToken,
                to: TokenAccountRole::UserToken,
                authority: TransferAuthority::Pool,
                amount: total_reward_amount,
            },
        );
        ctx.pool.reward = ctx.pool.reward + total_reward_amount;
    }
    ctx.user_data.stake_amount = ctx.user_data.stake_amount + amount;
    ctx.user_data.last_time = now;
    ctx.pool.tvl = ctx.pool.tvl + amount;
    Ok(transfers)
}

/// The accounts that an instant withdrawal reads and writes, and the clock's time.
pub struct InstantWithdraw {
    pub pool: Pool,
    pub user_data: UserData,
    /// The Unix time that the clock sysvar holds.
    pub clock: i64,
}

/// The reward accrued on the whole stake is paid once the lock is over.
pub open spec fn stake_reward_due(pool: Pool, user: UserData, now: i64) -> bool {
    user.stake_amount != 0 && reward_lock_over(pool, user, now)
}

/// The reward accrued on the whole stake since the user's last action.
pub open spec fn stake_reward(user: UserData, now: i64) -> int {
    accrued_reward(user.stake_amount as int, user.reward_rate as int, elapsed(now, user.last_time))
}

/// No arithmetic of paying the reward on the whole stake leaves `u64`.
pub open spec fn stake_reward_defined(pool: Pool, user: UserData, now: i64) -> bool {
    &&& now as u64 >= user.last_time
    &&& pool.reward_lock_period * PERIOD <= u64::MAX
    &&& (reward_lock_over(pool, user, now) ==> {
        &&& accrued_reward_fits(
            user.stake_amount as int,
            user.reward_rate as int,
            elapsed(now, user.last_time),
        )
        &&& pool.reward + stake_reward(user, now) <= u64::MAX
    })
}

/// The pool's reward total after the reward on the whole stake, when due.
pub open spec fn pool_after_stake_reward(pool: Pool, user: UserData, now: i64) -> u64 {
    if stake_reward_due(pool, user, now) {
        (pool.reward + stake_reward(user, now)) as u64
    } else {
        pool.reward
    }
}

/// The amount that a withdrawal of `amount` takes: at most the whole stake.
pub open spec fn withdrawal(user: UserData, amount: u64) -> int {
    if amount >= user.stake_amount {
        user.stake_amount as int
    } else {
        amount as int
    }
}

/// The pool's fee, in basis points, on a withdrawal of `amount`.
pub open spec fn withdrawal_fee(pool: Pool, amount: int) -> int {
    amount * pool.fee / 10000
}

/// No arithmetic of an instant withdrawal leaves `u64`.
pub open spec fn instant_withdraw_defined(pool: Pool, user: UserData, amount: u64, now: i64) -> bool {
    user.stake_amount != 0 ==> {
        let a = withdrawal(user, amount);
        let rest = user.stake_amount - a;
        &&& stake_reward_defined(pool, user, now)
        &&& a * pool.fee <= u64::MAX
        &&& withdrawal_fee(pool, a) <= a
        &&& (user.withdrawable ==> {
            &&& user.withdraw_amount <= rest
            &&& (rest - user.withdraw_amount < a ==> a <= rest)
        })
        &&& a <= pool.tvl
    }
}

/// The transfers of an instant withdrawal: the reward when due, the NFT when
/// the whole stake leaves, the withdrawn tokens less the fee, and the fee.
pub open spec fn instant_withdraw_transfers(pool: Pool, user: UserData, amount: u64, now: i64) -> Seq<
    TokenTransfer,
> {
    let a = withdrawal(user, amount);
    let fee = withdrawal_fee(pool, a);
    (if stake_reward_due(pool, user, now) {
        seq![reward_payment(stake_reward(user, now))]
    } else {
        Seq::empty()
    }) + (if a == user.stake_amount {
        seq![nft_return()]
    } else {
        Seq::empty()
    }) + seq![
        transfer(TokenAccountRole::PoolToken, TokenAccountRole::UserToken, TransferAuthority::Pool, a - fee),
        transfer(TokenAccountRole::PoolToken, TokenAccountRole::FeeReceiver, TransferAuthority::Pool, fee),
    ]
}

/// The pool after an instant withdrawal.
pub open spec fn instant_withdraw_pool(pool: Pool, user: UserData, amount: u64, now: i64) -> Pool {
    Pool {
        reward: pool_after_stake_reward(pool, user, now),
        tvl: (pool.tvl - withdrawal(user, amount)) as u64,
        ..pool
    }
}

/// The user's stake after an instant withdrawal: a pending request shrinks
/// when the stake left no longer covers it, and an emptied stake clears it.
pub open spec fn instant_withdraw_user(user: UserData, amount: u64, now: i64) -> UserData {
    let a = withdrawal(user, amount);
    let rest = user.stake_amount - a;
    let requested = if user.withdrawable && rest - user.withdraw_amount < a {
        user.withdraw_amount - (a - (rest - user.withdraw_amount))
    } else {
        user.withdraw_amount as int
    };
    UserData {
        stake_amount: rest as u64,
        withdraw_amount: if rest == 0 { 0 } else { requested as u64 },
        withdrawable: if rest == 0 { false } else { user.withdrawable },
        last_time: now as u64,
        ..user
    }
}

/// Withdraws up to `amount` staked tokens at once, less the pool's fee:
/// refused with `InvalidStakeAmount` when nothing is staked. The reward on the
/// whole stake is paid when the lock is over, and the NFT returns when the
/// whole stake leaves.
pub fn instant_withdraw(ctx: &mut InstantWithdraw, amount: u64) -> (r: Result<
    Vec<TokenTransfer>,
    PoolError,
>)
    requires
        instant_withdraw_defined(old(ctx).pool, old(ctx).user_data, amount, old(ctx).clock),
    ensures
        final(ctx).clock == old(ctx).clock,
        r is Err <==> old(ctx).user_data.stake_amount == 0,
        r matches Err(e) ==> e == PoolError::InvalidStakeAmount && final(ctx).pool == old(ctx).pool
            && final(ctx).user_data == old(ctx).user_data,
        r matches Ok(t) ==> {
            &&& t@ == instant_withdraw_transfers(old(ctx).pool, old(ctx).user_data, amount, old(ctx).clock)
            &&& final(ctx).pool == instant_withdraw_pool(old(ctx).pool, old(ctx).user_data, amount, old(ctx).clock)
            &&& final(ctx).user_data == instant_withdraw_user(old(ctx).user_data, amount, old(ctx).clock)
        },
{
    let now = ctx.clock as u64;
    if ctx.user_data.stake_amount == 0 {
        return Err(PoolError::InvalidStakeAmount);
    }
    let mut transfers: Vec<TokenTransfer> = Vec::new();
    if ctx.user_data.stake_amount != 0 && now - ctx.user_data.last_time > ctx.pool.reward_lock_period
        * PERIOD as u64 {
        let total_reward_amount = compute_reward(
            ctx.user_data.stake_amount,
            ctx.user_data.reward_rate,
            now - ctx.user_data.last_time,
        );
        transfers.push(
            TokenTransfer {
                from: TokenAccountRole::PoolToken,
                to: TokenAccountRole::UserToken,
                authority: TransferAuthority::Pool,
                amount: total_reward_amount,
            },
        );
        ctx.pool.reward = ctx.pool.reward + total_reward_amount;
    }
    let mut amount = amount;
    if amount >= ctx.user_data.stake_amount {
        amount = ctx.user_data.stake_amount;
    }
    if amount == ctx.user_data.stake_amount {
        transfers.push(
            TokenTransfer {
                from: TokenAccountRole::PoolNft,
                to: TokenAccountRole::UserNft,
                authority: TransferAuthority::Pool,
                amount: 1,
            },
        );
    }
    let fee_amount = amount * ctx.pool.fee / 10000;
    let withdraw_amount = amount - fee_amount;
    transfers.push(
        TokenTransfer {
            from: TokenAccountRole::PoolToken,
            to: TokenAccountRole::UserToken,
            authority: TransferAuthority::Pool,
            amount: withdraw_amount,
        },
    );
    transfers.push(
        TokenTransfer {
            from: TokenAccountRole::PoolToken,
            to: TokenAccountRole::FeeReceiver,
            authority: TransferAuthority::Pool,
            amount: fee_amount,
        },
    );
    ctx.user_data.stake_amount = ctx.user_data.stake_amount - amount;
    if ctx.user_data.withdrawable && (ctx.user_data.stake_amount - ctx.user_data.withdraw_amount)
        < amount {
        ctx.user_data.withdraw_amount = ctx.user_data.withdraw_amount - (amount - (
        ctx.user_data.stake_amount - ctx.user_data.withdraw_amount));
    }
    ctx.pool.tvl = ctx.pool.tvl - amount;
    ctx.user_data.last_time = now;
    if ctx.user_data.stake_amount == 0 {
        ctx.user_data.withdrawable = false;
        ctx.user_data.withdraw_amount = 0;
    }
    Ok(transfers)
}

/// The accounts that a withdrawal request reads and writes, and the clock's time.
pub struct RequestWithdraw {
    pub pool: Pool,
    pub user_data: UserData,
    /// The Unix time that the clock sysvar holds.
    pub clock: i64,
}

/// No arithmetic of a withdrawal request leaves `u64`.
pub open spec fn request_withdraw_defined(pool: Pool, user: UserData, now: i64) -> bool {
    user.stake_amount != 0 ==> stake_reward_defined(pool, user, now)
}

/// The transfers of a withdrawal request: the reward on the whole stake when due.
pub open spec fn request_withdraw_transfers(pool: Pool, user: UserData, now: i64) -> Seq<TokenTransfer> {
    if stake_reward_due(pool, user, now) {
        seq![reward_payment(stake_reward(user, now))]
    } else {
        Seq::empty()
    }
}

/// The pool after a withdrawal request.
pub open spec fn request_withdraw_pool(pool: Pool, user: UserData, now: i64) -> Pool {
    Pool { reward: pool_after_stake_reward(pool, user, now), ..pool }
}

/// The user's stake after a request to withdraw `amount`: the request, capped
/// at the whole stake, and its time are recorded.
pub open spec fn request_withdraw_user(user: UserData, amount: u64, now: i64) -> UserData {
    UserData {
        last_time: now as u64,
        withdraw_amount: withdrawal(user, amount) as u64,
        withdrawable: true,
        request_time: now as u64,
        ..user
    }
}

/// Requests the withdrawal of up to `amount` staked tokens, which `withdraw`
/// releases once the withdrawal lock is over: refused with
/// `InvalidStakeAmount` when nothing is staked. The reward on the whole stake
/// is paid when the reward lock is over.
pub fn request_withdraw(ctx: &mut RequestWithdraw, amount: u64) -> (r: Result<
    Vec<TokenTransfer>,
    PoolError,
>)
    requires
        request_withdraw_defined(old(ctx).pool, old(ctx).user_data, old(ctx).clock),
    ensures
        final(ctx).clock == old(ctx).clock,
        r is Err <==> old(ctx).user_data.stake_amount == 0,
        r matches Err(e) ==> e == PoolError::InvalidStakeAmount && final(ctx).pool == old(ctx).pool
            && final(ctx).user_data == old(ctx).user_data,
        r matches Ok(t) ==> {
            &&& t@ == request_withdraw_transfers(old(ctx).pool, old(ctx).user_data, old(ctx).clock)
            &&& final(ctx).pool == request_withdraw_pool(old(ctx).pool, old(ctx).user_data, old(ctx).clock)
            &&& final(ctx).user_data == request_withdraw_user(old(ctx).user_data, amount, old(ctx).clock)
        },
{
    let now = ctx.clock as u64;
    if ctx.user_data.stake_amount == 0 {
        return Err(PoolError::InvalidStakeAmount);
    }
    let mut transfers: Vec<TokenTransfer> = Vec::new();
    if ctx.user_data.stake_amount != 0 && now - ctx.user_data.last_time > ctx.pool.reward_lock_period
        * PERIOD as u64 {
        let total_reward_amount = compute_reward(
            ctx.user_data.stake_amount,
            ctx.user_data.reward_rate,
            now - ctx.user_data.last_time,
        );
        transfers.push(
            TokenTransfer {
                from: TokenAccountRole::PoolToken,
                to: TokenAccountRole::UserToken,
                authority: TransferAuthority::Pool,
                amount: total_reward_amount,
            },
        );
        ctx.pool.reward = ctx.pool.reward + total_reward_amount;
    }
    let mut requested = amount;
    if amount > ctx.user_data.stake_amount {
        requested = ctx.user_data.stake_amount;
    }
    ctx.user_data.last_time = now;
    ctx.user_data.withdraw_amount = requested;
    ctx.user_data.withdrawable = true;
    ctx.user_data.request_time = now;
    Ok(transfers)
}

/// The accounts that cancelling a withdrawal request reads and writes, and the clock's time.
pub struct CancelRequest {
    pub pool: Pool,
    pub user_data: UserData,
    /// The Unix time that the clock sysvar holds.
    pub clock: i64,
}

/// The reward accrued on the part of the stake that no request claims.
pub open spec fn unrequested_reward(user: UserData, now: i64) -> int {
    accrued_reward(
        user.stake_amount - user.withdraw_amount,
        user.reward_rate as int,
        elapsed(now, user.last_time),
    )
}

/// No arithmetic of paying the reward on the unrequested stake leaves `u64`.
pub open spec fn unrequested_reward_defined(pool: Pool, user: UserData, now: i64) -> bool {
    &&& user.withdraw_amount <= user.stake_amount
    &&& (user.stake_amount - user.withdraw_amount > 0 ==> {
        &&& now as u64 >= user.last_time
        &&& accrued_reward_fits(
            user.stake_amount - user.withdraw_amount,
            user.reward_rate as int,
            elapsed(now, user.last_time),
        )
        &&& pool.reward + unrequested_reward(user, now) <= u64::MAX
    })
}

/// The payment of the reward on the unrequested stake, when there is one.
pub open spec fn unrequested_reward_transfers(user: UserData, now: i64) -> Seq<TokenTransfer> {
    if user.stake_amount - user.withdraw_amount > 0 {
        seq![reward_payment(unrequested_reward(user, now))]
    } else {
        Seq::empty()
    }
}

/// The pool after paying the reward on the unrequested stake.
pub open spec fn pool_after_unrequested_reward(pool: Pool, user: UserData, now: i64) -> Pool {
    Pool {
        reward: if user.stake_amount - user.withdraw_amount > 0 {
            (pool.reward + unrequested_reward(user, now)) as u64
        } else {
            pool.reward
        },
        ..pool
    }
}

/// Cancelling refuses when nothing is staked or no request is pending.
pub open spec fn cancel_request_refused(user: UserData) -> bool {
    user.stake_amount == 0 || !user.withdrawable
}

/// No arithmetic of cancelling a request leaves `u64`.
pub open spec fn cancel_request_defined(pool: Pool, user: UserData, now: i64) -> bool {
    !cancel_request_refused(user) ==> unrequested_reward_defined(pool, user, now)
}

/// The user's stake after cancelling its request.
pub open spec fn cancel_request_user(user: UserData, now: i64) -> UserData {
    UserData {
        last_time: now as u64,
        withdraw_amount: 0,
        withdrawable: false,
        request_time: 0,
        ..user
    }
}

/// Cancels a pending withdrawal request: refused with `InvalidStakeAmount`
/// when nothing is staked or no request is pending. The reward accrued on the
/// unrequested stake is paid.
pub fn cancel_request(ctx: &mut CancelRequest) -> (r: Result<Vec<TokenTransfer>, PoolError>)
    requires
        cancel_request_defined(old(ctx).pool, old(ctx).user_data, old(ctx).clock),
    ensures
        final(ctx).clock == old(ctx).clock,
        r is Err <==> cancel_request_refused(old(ctx).user_data),
        r matches Err(e) ==> e == PoolError::InvalidStakeAmount && final(ctx).pool == old(ctx).pool
            && final(ctx).user_data == old(ctx).user_data,
        r matches Ok(t) ==> {
            &&& t@ == unrequested_reward_transfers(old(ctx).user_data, old(ctx).clock)
            &&& final(ctx).pool == pool_after_unrequested_reward(old(ctx).pool, old(ctx).user_data, old(ctx).clock)
            &&& final(ctx).user_data == cancel_request_user(old(ctx).user_data, old(ctx).clock)
        },
{
    let now = ctx.clock as u64;
    if ctx.user_data.stake_amount == 0 {
        return Err(PoolError::InvalidStakeAmount);
    }
    if ctx.user_data.withdrawable == false {
        return Err(PoolError::InvalidStakeAmount);
    }
    let mut transfers: Vec<TokenTransfer> = Vec::new();
    if ctx.user_data.stake_amount - ctx.user_data.withdraw_amount > 0 {
        let total_reward_amount = compute_reward(
            ctx.user_data.stake_amount - ctx.user_data.withdraw_amount,
            ctx.user_data.reward_rate,
            now - ctx.user_data.last_time,
        );
        transfers.push(
            TokenTransfer {
                from: TokenAccountRole::PoolToken,
                to: TokenAccountRole::UserToken,
                authority: TransferAuthority::Pool,
                amount: total_reward_amount,
            },
        );
        ctx.pool.reward = ctx.pool.reward + total_reward_amount;
    }
    ctx.user_data.last_time = now;
    ctx.user_data.withdraw_amount = 0;
    ctx.user_data.withdrawable = false;
    ctx.user_data.request_time = 0;
    Ok(transfers)
}

/// The accounts that a withdrawal reads and writes, and the clock's time.
pub struct Withdraw {
    pub pool: Pool,
    pub user_data: UserData,
    /// The Unix time that the clock sysvar holds.
    pub clock: i64,
}

/// The withdrawal lock of the pool has not passed since the request.
pub open spec fn withdraw_lock_pending(pool: Pool, user: UserData, now: i64) -> bool {
    elapsed(now, user.request_time) <= PERIOD * pool.withdraw_lock_period
}

/// No arithmetic of a withdrawal leaves `u64`.
pub open spec fn withdraw_defined(pool: Pool, user: UserData, now: i64) -> bool {
    user.withdraw_amount != 0 ==> {
        &&& now as u64 >= user.request_time
        &&& PERIOD * pool.withdraw_lock_period <= u64::MAX
        &&& (!withdraw_lock_pending(pool, user, now) ==> unrequested_reward_defined(pool, user, now))
    }
}

/// The transfers of a withdrawal: the reward on the unrequested stake, the NFT
/// when the request takes the whole stake, and the requested tokens.
pub open spec fn withdraw_transfers(user: UserData, now: i64) -> Seq<TokenTransfer> {
    unrequested_reward_transfers(user, now) + (if user.withdraw_amount == user.stake_amount {
        seq![nft_return()]
    } else {
        Seq::empty()
    }) + seq![
        transfer(TokenAccountRole::PoolToken, TokenAccountRole::UserToken, TransferAuthority::Pool, user.withdraw_amount as int),
    ]
}

/// The user's stake after a withdrawal: the requested tokens leave the stake
/// and the request is cleared. The pool's total is left as it was.
pub open spec fn withdraw_user(user: UserData, now: i64) -> UserData {
    UserData {
        stake_amount: (user.stake_amount - user.withdraw_amount) as u64,
        withdraw_amount: 0,
        withdrawable: false,
        last_time: now as u64,
        ..user
    }
}

/// Releases the requested tokens: refused with `InvalidWithdrawAmount` when
/// no tokens are requested, and with `InvalidPeriod` while the withdrawal lock
/// runs. The reward accrued on the unrequested stake is paid, and the NFT
/// returns when the request takes the whole stake.
pub fn withdraw(ctx: &mut Withdraw) -> (r: Result<Vec<TokenTransfer>, PoolError>)
    requires
        withdraw_defined(old(ctx).pool, old(ctx).user_data, old(ctx).clock),
    ensures
        final(ctx).clock == old(ctx).clock,
        r == Err::<Vec<TokenTransfer>, PoolError>(PoolError::InvalidWithdrawAmount) <==> old(ctx).user_data.withdraw_amount == 0,
        r == Err::<Vec<TokenTransfer>, PoolError>(PoolError::InvalidPeriod) <==> old(ctx).user_data.withdraw_amount != 0
            && withdraw_lock_pending(old(ctx).pool, old(ctx).user_data, old(ctx).clock),
        r is Err <==> old(ctx).user_data.withdraw_amount == 0 || withdraw_lock_pending(
            old(ctx).pool,
            old(ctx).user_data,
            old(ctx).clock,
        ),
        r is Err ==> final(ctx).pool == old(ctx).pool && final(ctx).user_data == old(ctx).user_data,
        r matches Ok(t) ==> {
            &&& t@ == withdraw_transfers(old(ctx).user_data, old(ctx).clock)
            &&& final(ctx).pool == pool_after_unrequested_reward(old(ctx).pool, old(ctx).user_data, old(ctx).clock)
            &&& final(ctx).user_data == withdraw_user(old(ctx).user_data, old(ctx).clock)
        },
{
    let now = ctx.clock as u64;
    if ctx.user_data.withdraw_amount == 0 {
        return Err(PoolError::InvalidWithdrawAmount);
    }
    if now - ctx.user_data.request_time <= PERIOD as u64 * ctx.pool.withdraw_lock_period {
        return Err(PoolError::InvalidPeriod);
    }
    let mut transfers: Vec<TokenTransfer> = Vec::new();
    if ctx.user_data.stake_amount - ctx.user_data.withdraw_amount > 0 {
        let total_reward_amount = compute_reward(
            ctx.user_data.stake_amount - ctx.user_data.withdraw_amount,
            ctx.user_data.reward_rate,
            now - ctx.user_data.last_time,
        );
        ctx.pool.reward = ctx.pool.reward + total_reward_amount;
        transfers.push(
            TokenTransfer {
                from: TokenAccountRole::PoolToken,
                to: TokenAccountRole::UserToken,
                authority: TransferAuthority::Pool,
                amount: total_reward_amount,
            },
        );
    }
    if ctx.user_data.withdraw_amount == ctx.user_data.stake_amount {
        transfers.push(
            TokenTransfer {
                from: TokenAccountRole::PoolNft,
                to: TokenAccountRole::UserNft,
                authority: TransferAuthority::Pool,
                amount: 1,
            },
        );
    }
    transfers.push(
        TokenTransfer {
            from: TokenAccountRole::PoolToken,
            to: TokenAccountRole::UserToken,
            authority: TransferAuthority::Pool,
            amount: ctx.user_data.withdraw_amount,
        },
    );
    ctx.user_data.stake_amount = ctx.user_data.stake_amount - ctx.user_data.withdraw_amount;
    ctx.user_data.withdraw_amount = 0;
    ctx.user_data.withdrawable = false;
    ctx.pool.tvl = ctx.pool.tvl - ctx.user_data.withdraw_amount;
    ctx.user_data.last_time = now;
    Ok(transfers)
}

/// The accounts of an emergency withdrawal.
pub struct EmergencyWithdraw {
    pub pool: Pool,
}

/// Sends `amount` tokens from the pool to the caller, signed by the pool, and
/// changes no state.
pub fn emergency_withdraw(ctx: &mut EmergencyWithdraw, amount: u64) -> (r: Result<
    Vec<TokenTransfer>,
    PoolError,
>)
    ensures
        final(ctx).pool == old(ctx).pool,
        r matches Ok(t) && t@ == seq![
            transfer(TokenAccountRole::PoolToken, TokenAccountRole::UserToken, TransferAuthority::Pool, amount as int),
        ],
{
    let mut transfers: Vec<TokenTransfer> = Vec::new();
    transfers.push(
        TokenTransfer {
            from: TokenAccountRole::PoolToken,
            to: TokenAccountRole::UserToken,
            authority: TransferAuthority::Pool,
            amount,
        },
    );
    Ok(transfers)
}

/// The accounts that registering a user reads and writes.
pub struct InitUser<'a> {
    /// The user's address.
    pub owner: Address,
    /// The address of the pool account.
    pub pool_key: Address,
    /// The data of the pool's ledger account.
    pub pool_ledger: &'a [u8],
    pub user_data: UserData,
    /// The mint of the NFT that the user stakes.
    pub nft_mint: Address,
}

/// A user's stake with nothing staked or requested, earning `reward_rate`.
pub open spec fn fresh_user(
    owner: Address,
    pool: Address,
    nft_mint: Address,
    reward_rate: u64,
    bump: u8,
) -> UserData {
    UserData {
        owner,
        pool,
        nft_mint,
        stake_amount: 0,
        reward_rate,
        last_time: 0,
        withdraw_amount: 0,
        request_time: 0,
        withdrawable: false,
        bump,
    }
}

/// The NFT goes from the user to the pool.
pub open spec fn nft_deposit() -> TokenTransfer {
    transfer(TokenAccountRole::UserNft, TokenAccountRole::PoolNft, TransferAuthority::Owner, 1)
}

/// The ledger slot `ranking` does not name the NFT that the user stakes.
pub open spec fn ranking_mismatch(ledger: Seq<u8>, ranking: u32, nft_mint: Address) -> bool {
    entry_mint(ledger, ranking as int) != nft_mint@
}

/// Registers a user who stakes the NFT that ledger slot `ranking` names, at
/// that slot's reward rate: refused with `InvalidRanking` when the slot names
/// another mint. The NFT goes to the pool.
pub fn init_user(ctx: &mut InitUser, bump: u8, ranking: u32) -> (r: Result<
    Vec<TokenTransfer>,
    PoolError,
>)
    requires
        has_entry(old(ctx).pool_ledger@, ranking as int),
    ensures
        final(ctx).owner == old(ctx).owner,
        final(ctx).pool_key == old(ctx).pool_key,
        final(ctx).pool_ledger@ == old(ctx).pool_ledger@,
        final(ctx).nft_mint == old(ctx).nft_mint,
        r is Err <==> ranking_mismatch(old(ctx).pool_ledger@, ranking, old(ctx).nft_mint),
        r matches Err(e) ==> e == PoolError::InvalidRanking && final(ctx).user_data == old(ctx).user_data,
        r matches Ok(t) ==> {
            &&& t@ == seq![nft_deposit()]
            &&& final(ctx).user_data == fresh_user(
                old(ctx).owner,
                old(ctx).pool_key,
                old(ctx).nft_mint,
                entry_rate(old(ctx).pool_ledger@, ranking as int),
                bump,
            )
        },
{
    let ledger = match get_reward_rate(ctx.pool_ledger, ranking as usize) {
        Ok(l) => l,
        Err(e) => { return Err(e); },
    };
    if !same_address(&ctx.nft_mint, &ledger.mint) {
        return Err(PoolError::InvalidRanking);
    }
    let mut transfers: Vec<TokenTransfer> = Vec::new();
    transfers.push(
        TokenTransfer {
            from: TokenAccountRole::UserNft,
            to: TokenAccountRole::PoolNft,
            authority: TransferAuthority::Owner,
            amount: 1,
        },
    );
    ctx.user_data.owner = ctx.owner;
    ctx.user_data.pool = ctx.pool_key;
    ctx.user_data.nft_mint = ctx.nft_mint;
    ctx.user_data.stake_amount = 0;
    ctx.user_data.reward_rate = ledger.reward_rate;
    ctx.user_data.last_time = 0;
    ctx.user_data.withdraw_amount = 0;
    ctx.user_data.request_time = 0;
    ctx.user_data.withdrawable = false;
    ctx.user_data.bump = bump;
    Ok(transfers)
}

/// The accounts that re-registering a user reads and writes.
pub struct UpdateUser<'a> {
    /// The user's address.
    pub owner: Address,
    /// The address of the pool account.
    pub pool_key: Address,
    /// The data of the pool's ledger account.
    pub pool_ledger: &'a [u8],
    pub user_data: UserData,
    /// The mint of the NFT that the user stakes.
    pub nft_mint: Address,
}

/// Re-registers a user, as `init_user` does, keeping the bump of the user's
/// account: the stake and any request are reset.
pub fn update_user(ctx: &mut UpdateUser, ranking: u32) -> (r: Result<
    Vec<TokenTransfer>,
    PoolError,
>)
    requires
        has_entry(old(ctx).pool_ledger@, ranking as int),
    ensures
        final(ctx).owner == old(ctx).owner,
        final(ctx).pool_key == old(ctx).pool_key,
        final(ctx).pool_ledger@ == old(ctx).pool_ledger@,
        final(ctx).nft_mint == old(ctx).nft_mint,
        r is Err <==> ranking_mismatch(old(ctx).pool_ledger@, ranking, old(ctx).nft_mint),
        r matches Err(e) ==> e == PoolError::InvalidRanking && final(ctx).user_data == old(ctx).user_data,
        r matches Ok(t) ==> {
            &&& t@ == seq![nft_deposit()]
            &&& final(ctx).user_data == fresh_user(
                old(ctx).owner,
                old(ctx).pool_key,
                old(ctx).nft_mint,
                entry_rate(old(ctx).pool_ledger@, ranking as int),
                old(ctx).user_data.bump,
            )
        },
{
    let ledger = match get_reward_rate(ctx.pool_ledger, ranking as usize) {
        Ok(l) => l,
        Err(e) => { return Err(e); },
    };
    if !same_address(&ctx.nft_mint, &ledger.mint) {
        return Err(PoolError::InvalidRanking);
    }
    let mut transfers: Vec<TokenTransfer> = Vec::new();
    transfers.push(
        TokenTransfer {
            from: TokenAccountRole::UserNft,
            to: TokenAccountRole::PoolNft,
            authority: TransferAuthority::Owner,
            amount: 1,
        },
    );
    ctx.user_data.owner = ctx.owner;
    ctx.user_data.pool = ctx.pool_key;
    ctx.user_data.nft_mint = ctx.nft_mint;
    ctx.user_data.stake_amount = 0;
    ctx.user_data.reward_rate = ledger.reward_rate;
    ctx.user_data.last_time = 0;
    ctx.user_data.withdraw_amount = 0;
    ctx.user_data.request_time = 0;
    ctx.user_data.withdrawable = false;
    Ok(transfers)
}

/// Whether the reward on `base` staked tokens, paid from `pool` after
/// `seconds`, stays within `u64`, the pool's total included.
fn reward_payable(pool: &Pool, base: u64, rate: u64, seconds: u64) -> (b: bool)
    ensures
        b == (accrued_reward_fits(base as int, rate as int, seconds as int) && pool.reward
            + accrued_reward(base as int, rate as int, seconds as int) <= u64::MAX),
{
    if !reward_fits(base, rate, seconds) {
        return false;
    }
    pool.reward.checked_add(compute_reward(base, rate, seconds)).is_some()
}

/// Whether `deposit` may be called: its arithmetic stays within `u64`.
pub fn deposit_in_range(ctx: &Deposit, amount: u64) -> (b: bool)
    ensures
        b == deposit_defined(ctx.pool, ctx.user_data, amount, ctx.clock),
{
    let pool = &ctx.pool;
    let user = &ctx.user_data;
    let limit = pool.deposit_limit;
    let rate = user.reward_rate;
    let capped = limit != UNCAPPED_LIMIT;
    if capped && 20 <= rate && rate < 30 && limit.checked_mul(3).is_none() {
        return false;
    }
    let total = match user.stake_amount.checked_add(amount) {
        None => { return false; },
        Some(t) => t,
    };
    let cap = if capped && 30 <= rate && rate < 40 {
        limit / 2
    } else if capped && 20 <= rate && rate < 30 {
        limit * 3 / 4
    } else {
        limit
    };
    if total > cap {
        return true;
    }
    if amount.checked_mul(6).is_none() || user.withdraw_amount > user.stake_amount {
        return false;
    }
    let base = user.stake_amount - user.withdraw_amount;
    if base > 0 {
        let now = ctx.clock as u64;
        if now < user.last_time {
            return false;
        }
        let lock = match pool.reward_lock_period.checked_mul(PERIOD as u64) {
            None => { return false; },
            Some(l) => l,
        };
        if now - user.last_time > lock && !reward_payable(pool, base, rate, now - user.last_time) {
            return false;
        }
    }
    pool.tvl.checked_add(amount).is_some()
}

/// Whether the reward on the whole stake stays within `u64`.
fn stake_reward_in_range(pool: &Pool, user: &UserData, now: i64) -> (b: bool)
    ensures
        b == stake_reward_defined(*pool, *user, now),
{
    let now = now as u64;
    if now < user.last_time {
        return false;
    }
    let lock = match pool.reward_lock_period.checked_mul(PERIOD as u64) {
        None => { return false; },
        Some(l) => l,
    };
    !(now - user.last_time > lock) || reward_payable(pool, user.stake_amount, user.reward_rate, now - user.last_time)
}

/// Whether `instant_withdraw` may be called: its arithmetic stays within `u64`.
pub fn instant_withdraw_in_range(ctx: &InstantWithdraw, amount: u64) -> (b: bool)
    ensures
        b == instant_withdraw_defined(ctx.pool, ctx.user_data, amount, ctx.clock),
{
    let pool = &ctx.pool;
    let user = &ctx.user_data;
    if user.stake_amount == 0 {
        return true;
    }
    if !stake_reward_in_range(pool, user, ctx.clock) {
        return false;
    }
    let a = if amount >= user.stake_amount { user.stake_amount } else { amount };
    let charged = match a.checked_mul(pool.fee) {
        None => { return false; },
        Some(c) => c,
    };
    if charged / 10000 > a {
        return false;
    }
    let rest = user.stake_amount - a;
    if user.withdrawable {
        if user.withdraw_amount > rest {
            return false;
        }
        if rest - user.withdraw_amount < a && a > rest {
            return false;
        }
    }
    a <= pool.tvl
}

/// Whether `request_withdraw` may be called: its arithmetic stays within `u64`.
pub fn request_withdraw_in_range(ctx: &RequestWithdraw) -> (b: bool)
    ensures
        b == request_withdraw_defined(ctx.pool, ctx.user_data, ctx.clock),
{
    ctx.user_data.stake_amount == 0 || stake_reward_in_range(&ctx.pool, &ctx.user_data, ctx.clock)
}

/// Whether the reward on the unrequested stake stays within `u64`.
fn unrequested_reward_in_range(pool: &Pool, user: &UserData, now: i64) -> (b: bool)
    ensures
        b == unrequested_reward_defined(*pool, *user, now),
{
    if user.withdraw_amount > user.stake_amount {
        return false;
    }
    let base = user.stake_amount - user.withdraw_amount;
    if base == 0 {
        return true;
    }
    let now = now as u64;
    now >= user.last_time && reward_payable(pool, base, user.reward_rate, now - user.last_time)
}

/// Whether `cancel_request` may be called: its arithmetic stays within `u64`.
pub fn cancel_request_in_range(ctx: &CancelRequest) -> (b: bool)
    ensures
        b == cancel_request_defined(ctx.pool, ctx.user_data, ctx.clock),
{
    ctx.user_data.stake_amount == 0 || !ctx.user_data.withdrawable || unrequested_reward_in_range(
        &ctx.pool,
        &ctx.user_data,
        ctx.clock,
    )
}

/// Whether `withdraw` may be called: its arithmetic stays within `u64`.
pub fn withdraw_in_range(ctx: &Withdraw) -> (b: bool)
    ensures
        b == withdraw_defined(ctx.pool, ctx.user_data, ctx.clock),
{
    let user = &ctx.user_data;
    if user.withdraw_amount == 0 {
        return true;
    }
    let now = ctx.clock as u64;
    if now < user.request_time {
        return false;
    }
    let lock = match (PERIOD as u64).checked_mul(ctx.pool.withdraw_lock_period) {
        None => { return false; },
        Some(l) => l,
    };
    now - user.request_time <= lock || unrequested_reward_in_range(&ctx.pool, user, ctx.clock)
}

} // verus!
