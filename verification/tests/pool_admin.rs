use solana_anchor::admin::{
    change_ledger, init_pool, ledger_fits_header, set_list, set_list_in_range, set_rate, update_pool,
    ChangeLedger, InitPool, SetList, SetRate, UpdatePool,
};
use solana_anchor::ledger::{get_last_number, get_rasing_rate, get_reward_rate, set_last_number, ENTRIES_OFFSET};
use solana_anchor::types::{Pool, DAILY_LEDGER_SIZE};

fn key(b: u8) -> [u8; 32] {
    [b; 32]
}

fn blank_pool() -> Pool {
    Pool {
        owner: key(0),
        token_mint: key(0),
        collection: key(0),
        pool_ledger: key(0),
        rand: key(0),
        fee_receiver: key(0),
        trader: key(0),
        start_at: 0,
        deposit_limit: 0,
        reward_lock_period: 0,
        withdraw_lock_period: 0,
        fee: 0,
        tvl: 0,
        reward: 0,
        decimals: 0,
        bump: 0,
    }
}

fn ledger(slots: usize) -> Vec<u8> {
    vec![0u8; ENTRIES_OFFSET + DAILY_LEDGER_SIZE * slots]
}

#[test]
fn init_pool_sets_every_field_and_header() {
    let mut data = ledger(2);
    let mut pool = blank_pool();
    pool.tvl = 99;
    pool.reward = 5;
    let mut ctx = InitPool {
        owner: key(1),
        pool_key: key(2),
        pool,
        rand: key(3),
        collection: key(4),
        fee_receiver: key(5),
        trader: key(6),
        pool_ledger: key(7),
        pool_ledger_data: &mut data,
        token_mint: key(8),
        token_mint_decimals: 9,
    };
    assert_eq!(init_pool(&mut ctx, 254, 100, 5000, 7, 3, 250), Ok(()));
    let p = ctx.pool;
    assert_eq!(p.owner, key(1));
    assert_eq!(p.rand, key(3));
    assert_eq!(p.collection, key(4));
    assert_eq!(p.fee_receiver, key(5));
    assert_eq!(p.trader, key(6));
    assert_eq!(p.pool_ledger, key(7));
    assert_eq!(p.token_mint, key(8));
    assert_eq!(p.decimals, 9);
    assert_eq!(p.bump, 254);
    assert_eq!(p.start_at, 100);
    assert_eq!(p.deposit_limit, 5000);
    assert_eq!(p.reward_lock_period, 7);
    assert_eq!(p.withdraw_lock_period, 3);
    assert_eq!(p.fee, 250);
    assert_eq!(p.tvl, 0);
    assert_eq!(p.reward, 0);
    assert_eq!(&data[8..40], &[2u8; 32]);
    assert_eq!(&data[45..49], &[0x57, 0x04, 0, 0]);
}

#[test]
fn ledger_header_needs_room() {
    assert!(ledger_fits_header(&vec![0u8; ENTRIES_OFFSET]));
    assert!(!ledger_fits_header(&vec![0u8; ENTRIES_OFFSET - 1]));
}

#[test]
fn update_pool_changes_settings_and_owner() {
    let mut pool = blank_pool();
    pool.tvl = 42;
    let mut ctx = UpdatePool { new_owner: key(9), pool };
    assert_eq!(update_pool(&mut ctx, 10, 11, 12, 13), Ok(()));
    assert_eq!(ctx.pool.deposit_limit, 10);
    assert_eq!(ctx.pool.reward_lock_period, 11);
    assert_eq!(ctx.pool.withdraw_lock_period, 12);
    assert_eq!(ctx.pool.fee, 13);
    assert_eq!(ctx.pool.owner, key(9));
    assert_eq!(ctx.pool.tvl, 42);
}

#[test]
fn change_ledger_points_at_new_account() {
    let mut ctx = ChangeLedger { pool: blank_pool(), pool_ledger: key(4) };
    assert_eq!(change_ledger(&mut ctx), Ok(()));
    assert_eq!(ctx.pool.pool_ledger, key(4));
}

#[test]
fn set_rate_writes_rate_byte() {
    let mut data = ledger(1);
    let mut ctx = SetRate { pool_ledger: &mut data };
    assert_eq!(set_rate(&mut ctx, 25), Ok(()));
    assert_eq!(get_rasing_rate(&data), Ok(25));
}

#[test]
fn set_list_on_empty_ledger_starts_at_1000() {
    let mut data = ledger(5);
    {
        let mut ctx = SetRate { pool_ledger: &mut data };
        set_rate(&mut ctx, 5).unwrap();
    }
    let nfts = vec![key(1), key(2), key(3)];
    assert!(set_list_in_range(&data, nfts.len()));
    let mut ctx = SetList { pool_ledger: &mut data };
    assert_eq!(set_list(&mut ctx, nfts), Ok(()));
    assert_eq!(get_last_number(&data), Ok(3));
    let rates: Vec<u64> = (0..3).map(|i| get_reward_rate(&data, i).unwrap().reward_rate).collect();
    assert_eq!(rates, vec![1000, 1005, 1010]);
    assert_eq!(get_reward_rate(&data, 2).unwrap().mint, key(3));
    assert_eq!(get_reward_rate(&data, 3).unwrap().reward_rate, 0);
}

#[test]
fn set_list_continues_from_last_slot() {
    let mut data = ledger(5);
    {
        let mut ctx = SetRate { pool_ledger: &mut data };
        set_rate(&mut ctx, 5).unwrap();
        let mut ctx = SetList { pool_ledger: &mut data };
        set_list(&mut ctx, vec![key(1), key(2), key(3)]).unwrap();
        let mut ctx = SetRate { pool_ledger: &mut data };
        set_rate(&mut ctx, 10).unwrap();
    }
    let mut ctx = SetList { pool_ledger: &mut data };
    assert_eq!(set_list(&mut ctx, vec![key(4), key(5)]), Ok(()));
    assert_eq!(get_last_number(&data), Ok(5));
    assert_eq!(get_reward_rate(&data, 3).unwrap().reward_rate, 1020);
    assert_eq!(get_reward_rate(&data, 4).unwrap().reward_rate, 1030);
    assert_eq!(get_reward_rate(&data, 4).unwrap().mint, key(5));
    assert_eq!(get_reward_rate(&data, 2).unwrap().reward_rate, 1010);
}

#[test]
fn set_list_of_nothing_only_keeps_count() {
    let mut data = ledger(2);
    set_last_number(&mut data, 1);
    let mut ctx = SetList { pool_ledger: &mut data };
    assert_eq!(set_list(&mut ctx, vec![]), Ok(()));
    assert_eq!(get_last_number(&data), Ok(1));
}

#[test]
fn set_list_range_checks() {
    let data = ledger(2);
    assert!(set_list_in_range(&data, 2));
    assert!(!set_list_in_range(&data, 3));
    assert!(!set_list_in_range(&vec![0u8; 44], 0));
    let mut full = ledger(3);
    set_last_number(&mut full, 3);
    assert!(!set_list_in_range(&full, 1));
    assert!(set_list_in_range(&full, 0));
    let mut stale = ledger(1);
    set_last_number(&mut stale, 2);
    assert!(!set_list_in_range(&stale, 0));
}

#[test]
fn two_listings_equal_one() {
    let mut split = ledger(6);
    let mut whole = ledger(6);
    for data in [&mut split, &mut whole] {
        let mut ctx = SetRate { pool_ledger: data };
        set_rate(&mut ctx, 7).unwrap();
    }
    {
        let mut ctx = SetList { pool_ledger: &mut split };
        set_list(&mut ctx, vec![key(1), key(2)]).unwrap();
        let mut ctx = SetList { pool_ledger: &mut split };
        set_list(&mut ctx, vec![key(3), key(4), key(5)]).unwrap();
    }
    let mut ctx = SetList { pool_ledger: &mut whole };
    set_list(&mut ctx, vec![key(1), key(2), key(3), key(4), key(5)]).unwrap();
    assert_eq!(split, whole);
    assert_eq!(get_reward_rate(&whole, 4).unwrap().reward_rate, 1028);
}
