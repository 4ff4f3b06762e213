use solana_anchor::ledger::{set_reward_rate, ENTRIES_OFFSET};
use solana_anchor::reward::{compute_reward, reward_fits};
use solana_anchor::staking::{
    cancel_request, cancel_request_in_range, deposit, deposit_in_range, emergency_withdraw, init_user,
    instant_withdraw, instant_withdraw_in_range, request_withdraw, request_withdraw_in_range,
    update_user, withdraw, withdraw_in_range, CancelRequest, Deposit, EmergencyWithdraw, InitUser,
    InstantWithdraw, RequestWithdraw, UpdateUser, Withdraw,
};
use solana_anchor::transfer::{TokenAccountRole, TokenTransfer, TransferAuthority};
use solana_anchor::types::{same_address, Pool, PoolError, RewardRate, UserData, DAILY_LEDGER_SIZE, PERIOD};

fn key(b: u8) -> [u8; 32] {
    [b; 32]
}

fn pool() -> Pool {
    Pool {
        owner: key(1),
        token_mint: key(2),
        collection: key(3),
        pool_ledger: key(4),
        rand: key(5),
        fee_receiver: key(6),
        trader: key(7),
        start_at: 0,
        deposit_limit: 1_000_000_000_000,
        reward_lock_period: 0,
        withdraw_lock_period: 0,
        fee: 0,
        tvl: 0,
        reward: 0,
        decimals: 9,
        bump: 255,
    }
}

fn user(stake: u64, rate: u64) -> UserData {
    UserData {
        owner: key(10),
        pool: key(11),
        nft_mint: key(12),
        stake_amount: stake,
        reward_rate: rate,
        last_time: 0,
        withdraw_amount: 0,
        request_time: 0,
        withdrawable: false,
        bump: 3,
    }
}

fn t(from: TokenAccountRole, to: TokenAccountRole, authority: TransferAuthority, amount: u64) -> TokenTransfer {
    TokenTransfer { from, to, authority, amount }
}

use TokenAccountRole::{FeeReceiver, PoolNft, PoolToken, Trader, UserNft, UserToken};
use TransferAuthority::Owner as ByOwner;
use TransferAuthority::Pool as ByPool;

#[test]
fn reward_formula_rounds_per_second() {
    assert_eq!(compute_reward(1_000_000_000_000, 1000, 100), 317_000);
    assert_eq!(compute_reward(1_000_000, 1000, 1_000_000), 0);
    assert_eq!(compute_reward(5, 7, 0), 0);
    assert!(reward_fits(1_000_000_000_000, 1000, 100));
    assert!(!reward_fits(u64::MAX, 2, 1));
    assert!(!reward_fits(1_000_000_000_000, 1000, u64::MAX));
}

#[test]
fn same_address_compares_bytes() {
    let mut other = key(1);
    assert!(same_address(&key(1), &other));
    other[31] = 0;
    assert!(!same_address(&key(1), &other));
}

fn ledger_with(mint: [u8; 32], rate: u64) -> Vec<u8> {
    let mut data = vec![0u8; ENTRIES_OFFSET + DAILY_LEDGER_SIZE * 3];
    set_reward_rate(&mut data, 2, RewardRate { reward_rate: rate, mint });
    data
}

#[test]
fn init_user_takes_rate_of_ranked_slot() {
    let data = ledger_with(key(12), 1015);
    let mut ctx = InitUser { owner: key(10), pool_key: key(11), pool_ledger: &data, user_data: user(77, 1), nft_mint: key(12) };
    let r = init_user(&mut ctx, 9, 2).unwrap();
    assert_eq!(r, vec![t(UserNft, PoolNft, ByOwner, 1)]);
    let u = ctx.user_data;
    assert_eq!(u.owner, key(10));
    assert_eq!(u.pool, key(11));
    assert_eq!(u.nft_mint, key(12));
    assert_eq!(u.reward_rate, 1015);
    assert_eq!(u.stake_amount, 0);
    assert_eq!(u.bump, 9);
    assert!(!u.withdrawable);
}

#[test]
fn init_user_refuses_other_mint() {
    let data = ledger_with(key(13), 1015);
    let mut ctx = InitUser { owner: key(10), pool_key: key(11), pool_ledger: &data, user_data: user(77, 1), nft_mint: key(12) };
    assert_eq!(init_user(&mut ctx, 9, 2), Err(PoolError::InvalidRanking));
    assert_eq!(ctx.user_data.stake_amount, 77);
}

#[test]
fn update_user_resets_stake_and_keeps_bump() {
    let data = ledger_with(key(12), 1020);
    let mut old = user(500, 1000);
    old.withdraw_amount = 100;
    old.withdrawable = true;
    let mut ctx = UpdateUser { owner: key(10), pool_key: key(11), pool_ledger: &data, user_data: old, nft_mint: key(12) };
    assert_eq!(update_user(&mut ctx, 2), Ok(vec![t(UserNft, PoolNft, ByOwner, 1)]));
    assert_eq!(ctx.user_data.stake_amount, 0);
    assert_eq!(ctx.user_data.withdraw_amount, 0);
    assert_eq!(ctx.user_data.reward_rate, 1020);
    assert_eq!(ctx.user_data.bump, 3);
    let mut ctx = UpdateUser { owner: key(10), pool_key: key(11), pool_ledger: &data, user_data: old, nft_mint: key(14) };
    assert_eq!(update_user(&mut ctx, 2), Err(PoolError::InvalidRanking));
}

#[test]
fn deposit_splits_between_pool_and_trader() {
    let mut ctx = Deposit { pool: pool(), user_data: user(0, 1000), clock: 500 };
    assert!(deposit_in_range(&ctx, 1005));
    let r = deposit(&mut ctx, 1005).unwrap();
    assert_eq!(r, vec![t(UserToken, PoolToken, ByOwner, 402), t(UserToken, Trader, ByOwner, 603)]);
    assert_eq!(ctx.user_data.stake_amount, 1005);
    assert_eq!(ctx.user_data.last_time, 500);
    assert_eq!(ctx.pool.tvl, 1005);
    assert_eq!(ctx.pool.reward, 0);
}

#[test]
fn deposit_pays_reward_after_lock() {
    let mut p = pool();
    p.reward_lock_period = 1;
    p.deposit_limit = u64::MAX;
    let mut u = user(1_000_000_000_000, 1000);
    u.last_time = 1_000;
    let mut ctx = Deposit { pool: p, user_data: u, clock: 1_000 + PERIOD as i64 + 100 };
    let r = deposit(&mut ctx, 10).unwrap();
    let reward = compute_reward(1_000_000_000_000, 1000, PERIOD as u64 + 100);
    assert_eq!(reward, 3170 * (86400 + 100));
    assert_eq!(r[2], t(PoolToken, UserToken, ByPool, reward));
    assert_eq!(ctx.pool.reward, reward);
    let mut ctx = Deposit { pool: p, user_data: u, clock: 1_000 + PERIOD as i64 };
    assert_eq!(deposit(&mut ctx, 10).unwrap().len(), 2);
}

#[test]
fn deposit_caps_by_reward_rate() {
    let mut p = pool();
    p.deposit_limit = 1000;
    let mut ctx = Deposit { pool: p, user_data: user(700, 25), clock: 0 };
    assert_eq!(deposit(&mut ctx, 100), Err(PoolError::InvalidStakeAmount));
    assert_eq!(ctx.user_data.stake_amount, 700);
    assert_eq!(deposit(&mut ctx, 50).unwrap().len(), 2);
    assert_eq!(ctx.user_data.stake_amount, 750);
    let mut ctx = Deposit { pool: p, user_data: user(400, 35), clock: 0 };
    assert_eq!(deposit(&mut ctx, 101), Err(PoolError::InvalidStakeAmount));
    let mut ctx = Deposit { pool: p, user_data: user(400, 15), clock: 0 };
    assert!(deposit(&mut ctx, 600).is_ok());
    let mut ctx = Deposit { pool: p, user_data: user(400, 15), clock: 0 };
    assert_eq!(deposit(&mut ctx, 601), Err(PoolError::InvalidStakeAmount));
}

#[test]
fn deposit_range_check() {
    let mut p = pool();
    p.deposit_limit = u64::MAX;
    let ctx = Deposit { pool: p, user_data: user(0, 1000), clock: 0 };
    assert!(!deposit_in_range(&ctx, u64::MAX / 5));
    let ctx = Deposit { pool: pool(), user_data: user(0, 1000), clock: 0 };
    assert!(deposit_in_range(&ctx, u64::MAX / 5));
    let ctx = Deposit { pool: pool(), user_data: user(u64::MAX, 1000), clock: 0 };
    assert!(!deposit_in_range(&ctx, 1));
    let mut u = user(100, 1000);
    u.last_time = 50;
    let ctx = Deposit { pool: pool(), user_data: u, clock: 10 };
    assert!(!deposit_in_range(&ctx, 1));
}

#[test]
fn instant_withdraw_needs_stake() {
    let mut ctx = InstantWithdraw { pool: pool(), user_data: user(0, 1000), clock: 0 };
    assert!(instant_withdraw_in_range(&ctx, 5));
    assert_eq!(instant_withdraw(&mut ctx, 5), Err(PoolError::InvalidStakeAmount));
}

#[test]
fn instant_withdraw_takes_fee() {
    let mut p = pool();
    p.fee = 100;
    p.tvl = 5000;
    p.reward_lock_period = 10;
    let mut ctx = InstantWithdraw { pool: p, user_data: user(3000, 1000), clock: 77 };
    assert!(instant_withdraw_in_range(&ctx, 1000));
    let r = instant_withdraw(&mut ctx, 1000).unwrap();
    assert_eq!(r, vec![t(PoolToken, UserToken, ByPool, 990), t(PoolToken, FeeReceiver, ByPool, 10)]);
    assert_eq!(ctx.user_data.stake_amount, 2000);
    assert_eq!(ctx.pool.tvl, 4000);
    assert_eq!(ctx.user_data.last_time, 77);
}

#[test]
fn instant_withdraw_of_everything_returns_nft() {
    let mut p = pool();
    p.tvl = 3000;
    p.reward_lock_period = 10;
    let mut pending = user(3000, 1000);
    pending.withdrawable = true;
    pending.withdraw_amount = 100;
    assert!(!instant_withdraw_in_range(&InstantWithdraw { pool: p, user_data: pending, clock: 5 }, 3000));
    let u = user(3000, 1000);
    let mut ctx = InstantWithdraw { pool: p, user_data: u, clock: 5 };
    let r = instant_withdraw(&mut ctx, 9999).unwrap();
    assert_eq!(r, vec![t(PoolNft, UserNft, ByPool, 1), t(PoolToken, UserToken, ByPool, 3000), t(PoolToken, FeeReceiver, ByPool, 0)]);
    assert_eq!(ctx.user_data.stake_amount, 0);
    assert!(!ctx.user_data.withdrawable);
    assert_eq!(ctx.pool.tvl, 0);
}

#[test]
fn instant_withdraw_shrinks_pending_request() {
    let mut p = pool();
    p.tvl = 100;
    p.reward_lock_period = 10;
    let mut u = user(100, 1000);
    u.withdrawable = true;
    u.withdraw_amount = 40;
    let mut ctx = InstantWithdraw { pool: p, user_data: u, clock: 0 };
    instant_withdraw(&mut ctx, 30).unwrap();
    assert_eq!(ctx.user_data.stake_amount, 70);
    assert_eq!(ctx.user_data.withdraw_amount, 40);
    let mut ctx = InstantWithdraw { pool: p, user_data: u, clock: 0 };
    instant_withdraw(&mut ctx, 40).unwrap();
    assert_eq!(ctx.user_data.stake_amount, 60);
    assert_eq!(ctx.user_data.withdraw_amount, 20);
    let ctx = InstantWithdraw { pool: p, user_data: u, clock: 0 };
    assert!(!instant_withdraw_in_range(&ctx, 70));
}

#[test]
fn request_then_cancel_restores_stake() {
    let mut p = pool();
    p.reward_lock_period = 10;
    let before = user(500, 1000);
    let mut ctx = RequestWithdraw { pool: p, user_data: before, clock: 100 };
    assert!(request_withdraw_in_range(&ctx));
    assert_eq!(request_withdraw(&mut ctx, 900), Ok(vec![]));
    assert_eq!(ctx.user_data.withdraw_amount, 500);
    assert!(ctx.user_data.withdrawable);
    assert_eq!(ctx.user_data.request_time, 100);
    let mut cancel = CancelRequest { pool: ctx.pool, user_data: ctx.user_data, clock: 200 };
    assert!(cancel_request_in_range(&cancel));
    assert_eq!(cancel_request(&mut cancel), Ok(vec![]));
    let after = cancel.user_data;
    assert_eq!(after.withdraw_amount, 0);
    assert!(!after.withdrawable);
    assert_eq!(after.request_time, 0);
    assert_eq!(after.stake_amount, before.stake_amount);
    assert_eq!(after.last_time, 200);
}

#[test]
fn request_and_cancel_refusals() {
    let mut ctx = RequestWithdraw { pool: pool(), user_data: user(0, 1000), clock: 0 };
    assert_eq!(request_withdraw(&mut ctx, 1), Err(PoolError::InvalidStakeAmount));
    let mut ctx = CancelRequest { pool: pool(), user_data: user(0, 1000), clock: 0 };
    assert_eq!(cancel_request(&mut ctx), Err(PoolError::InvalidStakeAmount));
    let mut ctx = CancelRequest { pool: pool(), user_data: user(10, 1000), clock: 0 };
    assert_eq!(cancel_request(&mut ctx), Err(PoolError::InvalidStakeAmount));
}

#[test]
fn cancel_pays_reward_on_unrequested_stake() {
    let mut u = user(1_000_000_000_100, 1000);
    u.withdraw_amount = 100;
    u.withdrawable = true;
    let mut ctx = CancelRequest { pool: pool(), user_data: u, clock: 10 };
    let r = cancel_request(&mut ctx).unwrap();
    assert_eq!(r, vec![t(PoolToken, UserToken, ByPool, 31_700)]);
    assert_eq!(ctx.pool.reward, 31_700);
}

#[test]
fn withdraw_refusals() {
    let mut ctx = Withdraw { pool: pool(), user_data: user(10, 1000), clock: 0 };
    assert!(withdraw_in_range(&ctx));
    assert_eq!(withdraw(&mut ctx), Err(PoolError::InvalidWithdrawAmount));
    let mut p = pool();
    p.withdraw_lock_period = 2;
    let mut u = user(10, 1000);
    u.withdraw_amount = 10;
    u.withdrawable = true;
    u.request_time = 100;
    let mut ctx = Withdraw { pool: p, user_data: u, clock: 100 + 2 * PERIOD as i64 };
    assert_eq!(withdraw(&mut ctx), Err(PoolError::InvalidPeriod));
    let ctx = Withdraw { pool: p, user_data: u, clock: 99 };
    assert!(!withdraw_in_range(&ctx));
}

#[test]
fn withdraw_releases_request_and_keeps_tvl() {
    let mut p = pool();
    p.tvl = 10;
    p.withdraw_lock_period = 2;
    let mut u = user(10, 1000);
    u.withdraw_amount = 10;
    u.withdrawable = true;
    u.request_time = 100;
    let now = 101 + 2 * PERIOD as i64;
    let mut ctx = Withdraw { pool: p, user_data: u, clock: now };
    let r = withdraw(&mut ctx).unwrap();
    assert_eq!(r, vec![t(PoolNft, UserNft, ByPool, 1), t(PoolToken, UserToken, ByPool, 10)]);
    assert_eq!(ctx.user_data.stake_amount, 0);
    assert_eq!(ctx.user_data.withdraw_amount, 0);
    assert!(!ctx.user_data.withdrawable);
    assert_eq!(ctx.user_data.last_time, now as u64);
    assert_eq!(ctx.pool.tvl, 10);
}

#[test]
fn partial_withdraw_keeps_nft() {
    let mut u = user(30, 1000);
    u.withdraw_amount = 10;
    u.withdrawable = true;
    let mut ctx = Withdraw { pool: pool(), user_data: u, clock: 5 };
    let r = withdraw(&mut ctx).unwrap();
    assert_eq!(r, vec![t(PoolToken, UserToken, ByPool, 0), t(PoolToken, UserToken, ByPool, 10)]);
    assert_eq!(ctx.user_data.stake_amount, 20);
}

#[test]
fn emergency_withdraw_moves_tokens_only() {
    let mut ctx = EmergencyWithdraw { pool: pool() };
    assert_eq!(emergency_withdraw(&mut ctx, 123), Ok(vec![t(PoolToken, UserToken, ByPool, 123)]));
    assert_eq!(ctx.pool.tvl, 0);
}

#[test]
fn deposit_shares_lose_at_most_one_unit() {
    let mut ctx = Deposit { pool: pool(), user_data: user(0, 1000), clock: 0 };
    let r = deposit(&mut ctx, 7).unwrap();
    assert_eq!(r[0].amount + r[1].amount, 6);
    let mut ctx = Deposit { pool: pool(), user_data: user(0, 1000), clock: 0 };
    let r = deposit(&mut ctx, 1000).unwrap();
    assert_eq!((r[0].amount, r[1].amount), (400, 600));
}

#[test]
fn reward_total_only_grows() {
    let mut u = user(1_000_000_000_000, 1000);
    u.withdraw_amount = 500_000_000_000;
    u.withdrawable = true;
    u.request_time = 0;
    let mut p = pool();
    p.reward = 5;
    let mut ctx = Withdraw { pool: p, user_data: u, clock: 100 };
    let r = withdraw(&mut ctx).unwrap();
    assert_eq!(r[0], t(PoolToken, UserToken, ByPool, 1585 * 100));
    assert_eq!(ctx.pool.reward, 5 + 1585 * 100);
    assert_eq!(ctx.user_data.stake_amount, 500_000_000_000);
}

#[test]
fn second_request_replaces_first() {
    let mut p = pool();
    p.reward_lock_period = 10;
    let mut ctx = RequestWithdraw { pool: p, user_data: user(500, 1000), clock: 10 };
    request_withdraw(&mut ctx, 300).unwrap();
    ctx.clock = 20;
    request_withdraw(&mut ctx, 100).unwrap();
    let mut direct = RequestWithdraw { pool: p, user_data: user(500, 1000), clock: 20 };
    request_withdraw(&mut direct, 100).unwrap();
    assert_eq!(ctx.user_data.withdraw_amount, 100);
    assert_eq!(ctx.user_data.withdraw_amount, direct.user_data.withdraw_amount);
    assert_eq!(ctx.user_data.request_time, direct.user_data.request_time);
    assert_eq!(ctx.user_data.last_time, direct.user_data.last_time);
    assert_eq!(ctx.user_data.stake_amount, 500);
    assert!(ctx.user_data.withdrawable);
}
