use vstd::prelude::*;
use vstd::bytes::{
    lemma_auto_spec_u32_to_from_le_bytes, lemma_auto_spec_u64_to_from_le_bytes, spec_u32_to_le_bytes,
};
use crate::ledger::{
    entry_offset, entry_rate, fresh_ledger_header, get_last_number, get_rasing_rate,
    get_reward_rate, has_entry, has_slot, overwrite, reward_rate_bytes, set_last_number, set_rasing_rate,
    set_reward_rate, stored_last_number, stored_rasing_rate, write_ledger_header, ENTRIES_OFFSET,
    LAST_NUMBER_OFFSET, RASING_RATE_OFFSET,
};
use crate::types::{Address, Pool, PoolError, RewardRate, DAILY_LEDGER_SIZE};

verus! {

/// The accounts that creating a pool reads and writes.
pub struct InitPool<'a> {
    /// The creator, who becomes the pool's owner.
    pub owner: Address,
    /// The address of the pool account.
    pub pool_key: Address,
    pub pool: Pool,
    pub rand: Address,
    pub collection: Address,
    pub fee_receiver: Address,
    pub trader: Address,
    /// The address of the ledger account.
    pub pool_ledger: Address,
    /// The data of the ledger account.
    pub pool_ledger_data: &'a mut [u8],
    pub token_mint: Address,
    /// The decimals of the staked token's mint.
    pub token_mint_decimals: u8,
}

/// The pool that `init_pool` creates.
pub open spec fn new_pool(
    ctx: InitPool,
    bump: u8,
    start_at: u64,
    limit: u64,
    reward_lock_period: u64,
    withdraw_lock_period: u64,
    fee: u64,
) -> Pool {
    Pool {
        owner: ctx.owner,
        token_mint: ctx.token_mint,
        collection: ctx.collection,
        pool_ledger: ctx.pool_ledger,
        rand: ctx.rand,
        fee_receiver: ctx.fee_receiver,
        trader: ctx.trader,
        start_at,
        deposit_limit: limit,
        reward_lock_period,
        withdraw_lock_period,
        fee,
        tvl: 0,
        reward: 0,
        decimals: ctx.token_mint_decimals,
        bump,
    }
}

/// Creates a pool from the given accounts and settings, with nothing staked
/// and no reward paid, and writes the header of a fresh, empty ledger.
pub fn init_pool(
    ctx: &mut InitPool,
    bump: u8,
    start_at: u64,
    limit: u64,
    reward_lock_period: u64,
    withdraw_lock_period: u64,
    fee: u64,
) -> (r: Result<(), PoolError>)
    requires
        old(ctx).pool_ledger_data@.len() >= ENTRIES_OFFSET,
    ensures
        r is Ok,
        final(ctx).pool == new_pool(
            *old(ctx),
            bump,
            start_at,
            limit,
            reward_lock_period,
            withdraw_lock_period,
            fee,
        ),
        final(ctx).pool_ledger_data@ == overwrite(
            old(ctx).pool_ledger_data@,
            0,
            fresh_ledger_header(old(ctx).pool_key@),
        ),
        final(ctx).owner == old(ctx).owner,
        final(ctx).pool_key == old(ctx).pool_key,
        final(ctx).rand == old(ctx).rand,
        final(ctx).collection == old(ctx).collection,
        final(ctx).fee_receiver == old(ctx).fee_receiver,
        final(ctx).trader == old(ctx).trader,
        final(ctx).pool_ledger == old(ctx).pool_ledger,
        final(ctx).token_mint == old(ctx).token_mint,
        final(ctx).token_mint_decimals == old(ctx).token_mint_decimals,
{
    ctx.pool.owner = ctx.owner;
    ctx.pool.rand = ctx.rand;
    ctx.pool.token_mint = ctx.token_mint;
    ctx.pool.collection = ctx.collection;
    ctx.pool.fee_receiver = ctx.fee_receiver;
    ctx.pool.trader = ctx.trader;
    ctx.pool.start_at = start_at;
    ctx.pool.deposit_limit = limit;
    ctx.pool.reward_lock_period = reward_lock_period;
    ctx.pool.withdraw_lock_period = withdraw_lock_period;
    ctx.pool.fee = fee;
    ctx.pool.tvl = 0;
    ctx.pool.reward = 0;
    ctx.pool.decimals = ctx.token_mint_decimals;
    ctx.pool.bump = bump;
    ctx.pool.pool_ledger = ctx.pool_ledger;
    write_ledger_header(ctx.pool_ledger_data, &ctx.pool_key);
    Ok(())
}

/// The accounts that changing a pool's settings reads and writes.
pub struct UpdatePool {
    /// The address that becomes the pool's owner.
    pub new_owner: Address,
    pub pool: Pool,
}

/// Sets the pool's deposit limit, lock periods, fee and owner.
pub fn update_pool(
    ctx: &mut UpdatePool,
    limit: u64,
    reward_lock_period: u64,
    withdraw_lock_period: u64,
    fee: u64,
) -> (r: Result<(), PoolError>)
    ensures
        r is Ok,
        final(ctx).new_owner == old(ctx).new_owner,
        final(ctx).pool == (Pool {
            deposit_limit: limit,
            reward_lock_period,
            withdraw_lock_period,
            fee,
            owner: old(ctx).new_owner,
            ..old(ctx).pool
        }),
{
    ctx.pool.deposit_limit = limit;
    ctx.pool.reward_lock_period = reward_lock_period;
    ctx.pool.withdraw_lock_period = withdraw_lock_period;
    ctx.pool.fee = fee;
    ctx.pool.owner = ctx.new_owner;
    Ok(())
}

/// The accounts that moving a pool to another ledger reads and writes.
pub struct ChangeLedger {
    pub pool: Pool,
    /// The address of the new ledger account.
    pub pool_ledger: Address,
}

/// Points the pool at another ledger account.
pub fn change_ledger(ctx: &mut ChangeLedger) -> (r: Result<(), PoolError>)
    ensures
        r is Ok,
        final(ctx).pool_ledger == old(ctx).pool_ledger,
        final(ctx).pool == (Pool { pool_ledger: old(ctx).pool_ledger, ..old(ctx).pool }),
{
    ctx.pool.pool_ledger = ctx.pool_ledger;
    Ok(())
}

/// The ledger account that setting the raising rate writes.
pub struct SetRate<'a> {
    pub pool_ledger: &'a mut [u8],
}

/// Stores the raising rate, by which each newly listed slot's rate exceeds the one before.
pub fn set_rate(ctx: &mut SetRate, rasing_rate: u8) -> (r: Result<(), PoolError>)
    requires
        old(ctx).pool_ledger@.len() > RASING_RATE_OFFSET,
    ensures
        r is Ok,
        final(ctx).pool_ledger@ == old(ctx).pool_ledger@.update(RASING_RATE_OFFSET as int, rasing_rate),
{
    set_rasing_rate(ctx.pool_ledger, rasing_rate);
    Ok(())
}

/// The ledger account that listing NFTs writes.
pub struct SetList<'a> {
    pub pool_ledger: &'a mut [u8],
}

/// The rate of the `i`-th NFT that a listing appends to `ledger`: a ledger
/// without filled slots starts at 1000, and a ledger with filled slots
/// continues from its last one; each slot adds the raising rate.
pub open spec fn listed_rate(ledger: Seq<u8>, i: int) -> int {
    let last = stored_last_number(ledger) as int;
    let rasing = stored_rasing_rate(ledger) as int;
    if last == 0 {
        1000 + rasing * i
    } else {
        entry_rate(ledger, last - 1) + rasing * (i + 1)
    }
}

/// The slot that a listing writes for the `i`-th NFT.
pub open spec fn listed_entry(ledger: Seq<u8>, nfts: Seq<Address>, i: int) -> RewardRate {
    RewardRate { reward_rate: listed_rate(ledger, i) as u64, mint: nfts[i] }
}

/// A listing of `n` NFTs stays within the ledger and within the integer types.
/// The count of filled slots plus `n` fits in `u32`: a program's heap bounds
/// the number of NFTs in one call far below that.
pub open spec fn set_list_defined(ledger: Seq<u8>, n: int) -> bool {
    let last = stored_last_number(ledger) as int;
    &&& ledger.len() >= LAST_NUMBER_OFFSET + 4
    &&& last + n <= u32::MAX
    &&& (last != 0 ==> has_entry(ledger, last - 1))
    &&& (n > 0 ==> has_entry(ledger, last + n - 1))
    &&& (last != 0 && n > 0 ==> listed_rate(ledger, n - 1) <= u64::MAX)
}

/// `after` holds the first `count` listed slots over `before`, and `before`
/// elsewhere, but possibly for the count of filled slots.
pub open spec fn listing_written(before: Seq<u8>, after: Seq<u8>, nfts: Seq<Address>, count: int) -> bool {
    let first = entry_offset(stored_last_number(before) as int);
    &&& after.len() == before.len()
    &&& forall|i: int| #![trigger nfts[i]]
        0 <= i < count ==> after.subrange(
            entry_offset(stored_last_number(before) + i),
            entry_offset(stored_last_number(before) + i) + DAILY_LEDGER_SIZE,
        ) == reward_rate_bytes(listed_entry(before, nfts, i))
    &&& forall|p: int|
        0 <= p < before.len() && !(first <= p < entry_offset(stored_last_number(before) + count))
            && !(LAST_NUMBER_OFFSET <= p < LAST_NUMBER_OFFSET + 4) ==> #[trigger] after[p] == before[p]
}

/// Writing one more listed slot keeps `listing_written`.
proof fn lemma_listing_step(before: Seq<u8>, mid: Seq<u8>, nfts: Seq<Address>, i: int)
    requires
        0 <= i < nfts.len(),
        listing_written(before, mid, nfts, i),
        has_entry(before, stored_last_number(before) + i),
        stored_last_number(before) + i >= 0,
    ensures
        listing_written(
            before,
            overwrite(
                mid,
                entry_offset(stored_last_number(before) + i),
                reward_rate_bytes(listed_entry(before, nfts, i)),
            ),
            nfts,
            i + 1,
        ),
{
    lemma_auto_spec_u64_to_from_le_bytes();
    let last = stored_last_number(before) as int;
    let e = listed_entry(before, nfts, i);
    let o = entry_offset(last + i);
    let after = overwrite(mid, o, reward_rate_bytes(e));
    assert(reward_rate_bytes(e).len() == 40);
    assert forall|j: int| #![trigger nfts[j]]
        0 <= j < i + 1 implies after.subrange(
            entry_offset(last + j),
            entry_offset(last + j) + DAILY_LEDGER_SIZE,
        ) == reward_rate_bytes(listed_entry(before, nfts, j)) by {
        if j < i {
            assert(entry_offset(last + j) + 40 <= o);
            assert(after.subrange(entry_offset(last + j), entry_offset(last + j) + 40) =~= mid.subrange(
                entry_offset(last + j),
                entry_offset(last + j) + 40,
            ));
        } else {
            assert(after.subrange(o, o + 40) =~= reward_rate_bytes(e));
        }
    }
}

/// Storing the count of filled slots after a listing keeps the listed slots
/// and gives the new count.
proof fn lemma_listing_count(before: Seq<u8>, mid: Seq<u8>, nfts: Seq<Address>, n: int)
    requires
        0 <= n,
        before.len() >= LAST_NUMBER_OFFSET + 4,
        stored_last_number(before) + n <= u32::MAX,
        n > 0 ==> has_entry(before, stored_last_number(before) + n - 1),
        listing_written(before, mid, nfts, n),
    ensures
        ({
            let after = overwrite(
                mid,
                LAST_NUMBER_OFFSET as int,
                spec_u32_to_le_bytes((stored_last_number(before) + n) as u32),
            );
            &&& listing_written(before, after, nfts, n)
            &&& stored_last_number(after) == stored_last_number(before) + n
        }),
{
    lemma_auto_spec_u32_to_from_le_bytes();
    let last = stored_last_number(before) as int;
    let after = overwrite(mid, LAST_NUMBER_OFFSET as int, spec_u32_to_le_bytes((last + n) as u32));
    assert(after.subrange(41, 45) =~= spec_u32_to_le_bytes((last + n) as u32));
    assert forall|j: int| #![trigger nfts[j]]
        0 <= j < n implies after.subrange(entry_offset(last + j), entry_offset(last + j) + DAILY_LEDGER_SIZE)
            == reward_rate_bytes(listed_entry(before, nfts, j)) by {
        assert(entry_offset(last + j) >= 49);
        assert(after.subrange(entry_offset(last + j), entry_offset(last + j) + 40) =~= mid.subrange(
            entry_offset(last + j),
            entry_offset(last + j) + 40,
        ));
    }
}

/// Appends one slot per NFT of `nfts` after the filled slots of the ledger,
/// at the rates that `listed_rate` gives, and counts them as filled.
pub fn set_list(ctx: &mut SetList, nfts: Vec<Address>) -> (r: Result<(), PoolError>)
    requires
        set_list_defined(old(ctx).pool_ledger@, nfts@.len() as int),
    ensures
        r is Ok,
        listing_written(old(ctx).pool_ledger@, final(ctx).pool_ledger@, nfts@, nfts@.len() as int),
        stored_last_number(final(ctx).pool_ledger@) == stored_last_number(old(ctx).pool_ledger@)
            + nfts@.len(),
{
    let ghost before = ctx.pool_ledger@;
    let rasing_rate = match get_rasing_rate(ctx.pool_ledger) {
        Ok(v) => v,
        Err(e) => { return Err(e); },
    };
    let last_number = match get_last_number(ctx.pool_ledger) {
        Ok(v) => v,
        Err(e) => { return Err(e); },
    };
    let n = nfts.len();
    assert(listing_written(before, ctx.pool_ledger@, nfts@, 0));
    if last_number == 0 {
        let mut i: usize = 0;
        while i < n
            invariant
                n == nfts@.len(),
                i <= n,
                last_number == stored_last_number(before),
                last_number == 0,
                rasing_rate == stored_rasing_rate(before),
                set_list_defined(before, n as int),
                listing_written(before, ctx.pool_ledger@, nfts@, i as int),
            decreases n - i,
        {
            assert(rasing_rate as u64 * i as u64 <= 255 * 0xffff_ffffu64) by (nonlinear_arith)
                requires
                    rasing_rate <= 255,
                    i <= 0xffff_ffff,
            ;
            proof {
                lemma_listing_step(before, ctx.pool_ledger@, nfts@, i as int);
            }
            set_reward_rate(
                ctx.pool_ledger,
                (last_number + i as u32) as usize,
                RewardRate { reward_rate: 1000 + rasing_rate as u64 * i as u64, mint: nfts[i] },
            );
            i = i + 1;
        }
    } else {
        let last_ledger = match get_reward_rate(ctx.pool_ledger, last_number as usize - 1) {
            Ok(v) => v,
            Err(e) => { return Err(e); },
        };
        let mut i: usize = 0;
        while i < n
            invariant
                n == nfts@.len(),
                i <= n,
                last_number == stored_last_number(before),
                last_number != 0,
                rasing_rate == stored_rasing_rate(before),
                last_ledger.reward_rate == entry_rate(before, last_number - 1),
                set_list_defined(before, n as int),
                listing_written(before, ctx.pool_ledger@, nfts@, i as int),
            decreases n - i,
        {
            assert(rasing_rate as u64 * (i as u64 + 1) <= rasing_rate as u64 * n as u64) by (nonlinear_arith)
                requires
                    i < n,
            ;
            proof {
                lemma_listing_step(before, ctx.pool_ledger@, nfts@, i as int);
            }
            set_reward_rate(
                ctx.pool_ledger,
                (last_number + i as u32) as usize,
                RewardRate {
                    reward_rate: last_ledger.reward_rate + rasing_rate as u64 * (i as u64 + 1),
                    mint: nfts[i],
                },
            );
            i = i + 1;
        }
    }
    proof {
        lemma_listing_count(before, ctx.pool_ledger@, nfts@, n as int);
    }
    set_last_number(ctx.pool_ledger, last_number + n as u32);
    Ok(())
}

/// Whether `set_list` may be called with `n` NFTs: the listing stays within
/// the ledger and the integer types.
pub fn set_list_in_range(a: &[u8], n: usize) -> (b: bool)
    ensures
        b == set_list_defined(a@, n as int),
{
    if a.len() < LAST_NUMBER_OFFSET + 4 {
        return false;
    }
    let last = match get_last_number(a) {
        Ok(v) => v,
        Err(_) => { return false; },
    };
    if n as u64 > 0xffff_ffffu64 - last as u64 {
        return false;
    }
    if last != 0 && !has_slot(a, last as u64 - 1) {
        return false;
    }
    if n > 0 && !has_slot(a, last as u64 + n as u64 - 1) {
        return false;
    }
    if last != 0 && n > 0 {
        let base = match get_reward_rate(a, last as usize - 1) {
            Ok(v) => v.reward_rate,
            Err(_) => { return false; },
        };
        let rasing = a[RASING_RATE_OFFSET] as u64;
        assert(rasing * (n as u64) <= 255 * 0xffff_ffffu64) by (nonlinear_arith)
            requires
                rasing <= 255,
                n <= 0xffff_ffff,
        ;
        assert(rasing * ((n - 1) + 1) == rasing * n);
        return base.checked_add(rasing * n as u64).is_some();
    }
    true
}

/// Whether a ledger of this length can take a fresh header, as `init_pool` writes it.
pub fn ledger_fits_header(data: &[u8]) -> (b: bool)
    ensures
        b == (data@.len() >= ENTRIES_OFFSET),
{
    data.len() >= ENTRIES_OFFSET
}

} // verus!
