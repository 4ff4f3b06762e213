use vstd::prelude::*;
use crate::staking::{
    cancel_request_defined, cancel_request_refused, cancel_request_user, deposit_defined,
    deposit_exceeds_cap, deposit_pool, deposit_transfers, deposit_user, instant_withdraw_defined,
    instant_withdraw_pool, instant_withdraw_transfers, instant_withdraw_user, pool_after_unrequested_reward,
    request_withdraw_defined, request_withdraw_pool, request_withdraw_transfers, request_withdraw_user,
    unrequested_reward, unrequested_reward_transfers, withdraw_defined, withdraw_lock_pending,
    withdraw_transfers, withdraw_user, UNCAPPED_LIMIT,
};
use crate::transfer::{TokenAccountRole, TokenTransfer, TransferAuthority};
use crate::admin::{new_pool, InitPool};
use crate::ledger::entry_rate;
use crate::staking::{fresh_user, ranking_mismatch};
use crate::types::{Address, Pool, UserData};
use vstd::bytes::spec_u64_from_le_bytes;

verus! {

/// The cap of a deposit depends on the NFT's rate only inside [20, 40): a
/// capped pool allows three quarters of its limit to rates in [20, 30), half
/// of it to rates in [30, 40), and the whole limit to every other rate; a pool
/// whose limit is the uncapped value allows its limit to every rate. A deposit
/// is refused exactly when the stake would pass that cap.
pub proof fn lemma_deposit_cap_by_rate(pool: Pool, user: UserData, amount: u64)
    ensures
        pool.deposit_limit == UNCAPPED_LIMIT || user.reward_rate < 20 || user.reward_rate >= 40
            ==> (deposit_exceeds_cap(pool, user, amount) <==> user.stake_amount + amount
            > pool.deposit_limit),
        pool.deposit_limit != UNCAPPED_LIMIT && 20 <= user.reward_rate < 30 ==> (deposit_exceeds_cap(
            pool,
            user,
            amount,
        ) <==> user.stake_amount + amount > pool.deposit_limit * 3 / 4),
        pool.deposit_limit != UNCAPPED_LIMIT && 30 <= user.reward_rate < 40 ==> (deposit_exceeds_cap(
            pool,
            user,
            amount,
        ) <==> user.stake_amount + amount > pool.deposit_limit / 2),
{
}

/// A successful deposit sends four tenths of the amount to the pool and six
/// tenths to the trader, signed by the user; when part of the stake is
/// unrequested and the reward lock is over, it then pays the reward on that
/// part for the seconds since the last action, which the pool's reward total
/// counts. The stake and the pool's total grow by the amount, and the clock
/// of the stake restarts at `now`.
pub proof fn lemma_deposit_outcome(pool: Pool, user: UserData, amount: u64, now: i64)
    requires
        deposit_defined(pool, user, amount, now),
        !deposit_exceeds_cap(pool, user, amount),
    ensures
        ({
            let t = deposit_transfers(pool, user, amount, now);
            let p = deposit_pool(pool, user, amount, now);
            let u = deposit_user(user, amount, now);
            let base = user.stake_amount - user.withdraw_amount;
            let seconds = now as u64 - user.last_time;
            let due = base > 0 && seconds > pool.reward_lock_period * 86400;
            let reward = base * user.reward_rate / 10000 / 365 / 24 / 60 / 60 * seconds;
            &&& t.len() == if due { 3int } else { 2int }
            &&& t[0] == TokenTransfer {
                from: TokenAccountRole::UserToken,
                to: TokenAccountRole::PoolToken,
                authority: TransferAuthority::Owner,
                amount: (amount * 4 / 10) as u64,
            }
            &&& t[1] == TokenTransfer {
                from: TokenAccountRole::UserToken,
                to: TokenAccountRole::Trader,
                authority: TransferAuthority::Owner,
                amount: (amount * 6 / 10) as u64,
            }
            &&& due ==> t[2] == TokenTransfer {
                from: TokenAccountRole::PoolToken,
                to: TokenAccountRole::UserToken,
                authority: TransferAuthority::Pool,
                amount: reward as u64,
            } && p.reward == pool.reward + reward
            &&& !due ==> p.reward == pool.reward
            &&& p.tvl == pool.tvl + amount
            &&& u.stake_amount == user.stake_amount + amount
            &&& u.last_time == now as u64
            &&& u.withdraw_amount == user.withdraw_amount
            &&& u.withdrawable == user.withdrawable
            &&& u.request_time == user.request_time
            &&& u.reward_rate == user.reward_rate
        }),
{
}

/// A successful instant withdrawal first pays, once the reward lock is over,
/// the reward on the whole stake for the seconds since the last action,
/// whatever amount is withdrawn; the pool's reward total counts it. It then
/// returns the NFT when the whole stake leaves, sends the withdrawn amount
/// (at most the stake) less the fee to the user, and the fee to the fee
/// receiver. The stake and the pool's total shrink by the withdrawn amount and
/// the clock of the stake restarts at `now`.
pub proof fn lemma_instant_withdraw_outcome(pool: Pool, user: UserData, amount: u64, now: i64)
    requires
        instant_withdraw_defined(pool, user, amount, now),
        user.stake_amount != 0,
    ensures
        ({
            let t = instant_withdraw_transfers(pool, user, amount, now);
            let p = instant_withdraw_pool(pool, user, amount, now);
            let u = instant_withdraw_user(user, amount, now);
            let seconds = now as u64 - user.last_time;
            let due = seconds > pool.reward_lock_period * 86400;
            let reward = user.stake_amount * user.reward_rate / 10000 / 365 / 24 / 60 / 60 * seconds;
            let a = if amount >= user.stake_amount { user.stake_amount as int } else { amount as int };
            let fee = a * pool.fee / 10000;
            let whole = a == user.stake_amount;
            &&& t.len() == (if due { 1int } else { 0int }) + (if whole { 1int } else { 0int }) + 2
            &&& due ==> t[0] == TokenTransfer {
                from: TokenAccountRole::PoolToken,
                to: TokenAccountRole::UserToken,
                authority: TransferAuthority::Pool,
                amount: reward as u64,
            } && p.reward == pool.reward + reward
            &&& !due ==> p.reward == pool.reward
            &&& whole ==> t[t.len() - 3] == TokenTransfer {
                from: TokenAccountRole::PoolNft,
                to: TokenAccountRole::UserNft,
                authority: TransferAuthority::Pool,
                amount: 1,
            }
            &&& t[t.len() - 2] == TokenTransfer {
                from: TokenAccountRole::PoolToken,
                to: TokenAccountRole::UserToken,
                authority: TransferAuthority::Pool,
                amount: (a - fee) as u64,
            }
            &&& t[t.len() - 1] == TokenTransfer {
                from: TokenAccountRole::PoolToken,
                to: TokenAccountRole::FeeReceiver,
                authority: TransferAuthority::Pool,
                amount: fee as u64,
            }
            &&& p.tvl == pool.tvl - a
            &&& u.stake_amount == user.stake_amount - a
            &&& u.last_time == now as u64
            &&& u.reward_rate == user.reward_rate
            &&& u.request_time == user.request_time
        }),
{
}

/// A successful withdrawal request pays, once the reward lock is over, the
/// reward on the whole stake for the seconds since the last action, and
/// nothing else; the pool's reward total counts it. The request is recorded
/// as the amount capped at the stake, at time `now`, and the clock of the
/// stake restarts at `now`; the stake itself does not change.
pub proof fn lemma_request_withdraw_outcome(pool: Pool, user: UserData, amount: u64, now: i64)
    requires
        request_withdraw_defined(pool, user, now),
        user.stake_amount != 0,
    ensures
        ({
            let t = request_withdraw_transfers(pool, user, now);
            let p = request_withdraw_pool(pool, user, now);
            let u = request_withdraw_user(user, amount, now);
            let seconds = now as u64 - user.last_time;
            let due = seconds > pool.reward_lock_period * 86400;
            let reward = user.stake_amount * user.reward_rate / 10000 / 365 / 24 / 60 / 60 * seconds;
            &&& due ==> t == seq![
                TokenTransfer {
                    from: TokenAccountRole::PoolToken,
                    to: TokenAccountRole::UserToken,
                    authority: TransferAuthority::Pool,
                    amount: reward as u64,
                },
            ] && p.reward == pool.reward + reward
            &&& !due ==> t.len() == 0 && p.reward == pool.reward
            &&& p.tvl == pool.tvl
            &&& u.withdraw_amount == if amount >= user.stake_amount { user.stake_amount } else { amount }
            &&& u.withdrawable
            &&& u.request_time == now as u64
            &&& u.last_time == now as u64
            &&& u.stake_amount == user.stake_amount
            &&& u.reward_rate == user.reward_rate
        }),
{
}

/// A successful cancellation pays the reward on the unrequested part of the
/// stake for the seconds since the last action, when that part is not empty,
/// and nothing else; it clears the request and restarts the clock of the stake.
pub proof fn lemma_cancel_request_outcome(pool: Pool, user: UserData, now: i64)
    requires
        cancel_request_defined(pool, user, now),
        !cancel_request_refused(user),
    ensures
        ({
            let t = unrequested_reward_transfers(user, now);
            let p = pool_after_unrequested_reward(pool, user, now);
            let u = cancel_request_user(user, now);
            let base = user.stake_amount - user.withdraw_amount;
            let reward = base * user.reward_rate / 10000 / 365 / 24 / 60 / 60 * (now as u64
                - user.last_time);
            &&& base > 0 ==> t == seq![
                TokenTransfer {
                    from: TokenAccountRole::PoolToken,
                    to: TokenAccountRole::UserToken,
                    authority: TransferAuthority::Pool,
                    amount: reward as u64,
                },
            ] && p.reward == pool.reward + reward
            &&& base == 0 ==> t.len() == 0 && p.reward == pool.reward
            &&& p.tvl == pool.tvl
            &&& u.withdraw_amount == 0
            &&& !u.withdrawable
            &&& u.request_time == 0
            &&& u.last_time == now as u64
            &&& u.stake_amount == user.stake_amount
        }),
{
}

/// A request followed by its cancellation pays the reward of each second of
/// stake once: the cancellation counts from the time of the request, on the
/// part of the stake that the request left unrequested.
pub proof fn lemma_request_then_cancel_pays_once(user: UserData, amount: u64, t1: i64, t2: i64)
    requires
        user.stake_amount != 0,
    ensures
        ({
            let u = request_withdraw_user(user, amount, t1);
            let requested = if amount >= user.stake_amount { user.stake_amount } else { amount };
            &&& !cancel_request_refused(u)
            &&& u.last_time == t1 as u64
            &&& unrequested_reward(u, t2) == (user.stake_amount - requested) * user.reward_rate / 10000
                / 365 / 24 / 60 / 60 * (t2 as u64 - t1 as u64)
        }),
{
}

/// A withdrawal with tokens requested is refused with `InvalidPeriod` exactly
/// while no more than the lock's days have passed since the request, whatever
/// the time of the user's last action.
pub proof fn lemma_withdraw_lock_counts_from_request(pool: Pool, user: UserData, now: i64, other_time: u64)
    requires
        now as u64 >= user.request_time,
    ensures
        withdraw_lock_pending(pool, user, now) <==> now as u64 - user.request_time <= 86400
            * pool.withdraw_lock_period,
        withdraw_lock_pending(pool, user, now) == withdraw_lock_pending(
            pool,
            UserData { last_time: other_time, ..user },
            now,
        ),
{
}

/// A successful withdrawal pays the reward on the unrequested part of the
/// stake for the seconds since the last action when that part is not empty,
/// returns the NFT when the request takes the whole stake, and sends the
/// requested tokens; the stake shrinks by the request, which is cleared, and
/// the pool's total is left as it was.
pub proof fn lemma_withdraw_outcome(pool: Pool, user: UserData, now: i64)
    requires
        withdraw_defined(pool, user, now),
        user.withdraw_amount != 0,
        !withdraw_lock_pending(pool, user, now),
    ensures
        ({
            let t = withdraw_transfers(user, now);
            let p = pool_after_unrequested_reward(pool, user, now);
            let u = withdraw_user(user, now);
            let base = user.stake_amount - user.withdraw_amount;
            let reward = base * user.reward_rate / 10000 / 365 / 24 / 60 / 60 * (now as u64
                - user.last_time);
            let whole = user.withdraw_amount == user.stake_amount;
            &&& t.len() == (if base > 0 { 1int } else { 0int }) + (if whole { 1int } else { 0int }) + 1
            &&& base > 0 ==> t[0] == TokenTransfer {
                from: TokenAccountRole::PoolToken,
                to: TokenAccountRole::UserToken,
                authority: TransferAuthority::Pool,
                amount: reward as u64,
            } && p.reward == pool.reward + reward
            &&& base == 0 ==> p.reward == pool.reward
            &&& whole ==> t[t.len() - 2] == TokenTransfer {
                from: TokenAccountRole::PoolNft,
                to: TokenAccountRole::UserNft,
                authority: TransferAuthority::Pool,
                amount: 1,
            }
            &&& t[t.len() - 1] == TokenTransfer {
                from: TokenAccountRole::PoolToken,
                to: TokenAccountRole::UserToken,
                authority: TransferAuthority::Pool,
                amount: user.withdraw_amount,
            }
            &&& p.tvl == pool.tvl
            &&& u.stake_amount == user.stake_amount - user.withdraw_amount
            &&& u.withdraw_amount == 0
            &&& !u.withdrawable
            &&& u.last_time == now as u64
            &&& u.request_time == user.request_time
        }),
{
}

/// Registering a user is refused exactly when the ranked ledger slot holds
/// another mint than the staked NFT's; a registered user has nothing staked
/// or requested, earns the rate stored in that slot, and is recorded with its
/// owner, pool and NFT mint.
pub proof fn lemma_register_user_outcome(
    ledger: Seq<u8>,
    ranking: u32,
    owner: Address,
    pool_key: Address,
    nft_mint: Address,
    bump: u8,
)
    ensures
        ranking_mismatch(ledger, ranking, nft_mint) <==> ledger.subrange(
            49 + 40 * ranking + 8,
            49 + 40 * ranking + 40,
        ) != nft_mint@,
        entry_rate(ledger, ranking as int) == spec_u64_from_le_bytes(
            ledger.subrange(49 + 40 * ranking, 49 + 40 * ranking + 8),
        ),
        ({
            let u = fresh_user(owner, pool_key, nft_mint, entry_rate(ledger, ranking as int), bump);
            &&& u.owner == owner
            &&& u.pool == pool_key
            &&& u.nft_mint == nft_mint
            &&& u.reward_rate == entry_rate(ledger, ranking as int)
            &&& u.stake_amount == 0
            &&& u.withdraw_amount == 0
            &&& !u.withdrawable
            &&& u.last_time == 0
            &&& u.request_time == 0
            &&& u.bump == bump
        }),
{
}

/// A new pool holds the accounts and settings it was created with, the
/// staked mint's decimals, and nothing staked or paid.
pub proof fn lemma_new_pool_outcome(
    ctx: InitPool,
    bump: u8,
    start_at: u64,
    limit: u64,
    reward_lock_period: u64,
    withdraw_lock_period: u64,
    fee: u64,
)
    ensures
        ({
            let p = new_pool(ctx, bump, start_at, limit, reward_lock_period, withdraw_lock_period, fee);
            &&& p.owner == ctx.owner
            &&& p.token_mint == ctx.token_mint
            &&& p.collection == ctx.collection
            &&& p.pool_ledger == ctx.pool_ledger
            &&& p.rand == ctx.rand
            &&& p.fee_receiver == ctx.fee_receiver
            &&& p.trader == ctx.trader
            &&& p.start_at == start_at
            &&& p.deposit_limit == limit
            &&& p.reward_lock_period == reward_lock_period
            &&& p.withdraw_lock_period == withdraw_lock_period
            &&& p.fee == fee
            &&& p.tvl == 0
            &&& p.reward == 0
            &&& p.decimals == ctx.token_mint_decimals
            &&& p.bump == bump
        }),
{
}

} // verus!
