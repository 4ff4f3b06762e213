use vstd::prelude::*;
use vstd::bytes::lemma_auto_spec_u64_to_from_le_bytes;
use crate::admin::{listed_entry, listed_rate, listing_written, set_list_defined};
use crate::ledger::{
    entry_mint, entry_offset, entry_rate, has_entry, reward_rate_bytes, stored_last_number,
    stored_rasing_rate, LAST_NUMBER_OFFSET,
};
use vstd::bytes::{lemma_auto_spec_u32_to_from_le_bytes, spec_u32_to_le_bytes};
use crate::staking::{
    cancel_request_refused, cancel_request_user, request_withdraw_defined, deposit_defined, deposit_exceeds_cap,
    deposit_pool, deposit_transfers, deposit_user, fresh_user, instant_withdraw_defined,
    instant_withdraw_pool, instant_withdraw_transfers, instant_withdraw_user,
    pool_after_unrequested_reward, request_withdraw_pool, request_withdraw_user, withdraw_user,
    unrequested_reward_defined, withdrawal, withdrawal_fee, deposit_cap,
};
use crate::reward::{accrued_reward, elapsed};
use crate::transfer::nft_return;
use crate::types::{Address, Pool, UserData, DAILY_LEDGER_SIZE};

verus! {

/// A user's stake is consistent when the pending request is covered by the
/// stake and nothing is requested unless a request is pending.
pub open spec fn user_consistent(user: UserData) -> bool {
    &&& user.withdraw_amount <= user.stake_amount
    &&& (!user.withdrawable ==> user.withdraw_amount == 0)
}

/// Every operation on a user's stake keeps it consistent: a newly registered
/// stake is consistent, and deposits, instant withdrawals, requests,
/// cancellations and withdrawals keep it so.
pub proof fn lemma_operations_keep_user_consistent(
    pool: Pool,
    user: UserData,
    amount: u64,
    now: i64,
    owner: Address,
    pool_key: Address,
    nft_mint: Address,
    reward_rate: u64,
    bump: u8,
)
    requires
        user_consistent(user),
    ensures
        user_consistent(fresh_user(owner, pool_key, nft_mint, reward_rate, bump)),
        deposit_defined(pool, user, amount, now) && !deposit_exceeds_cap(pool, user, amount)
            ==> user_consistent(deposit_user(user, amount, now)),
        instant_withdraw_defined(pool, user, amount, now) && user.stake_amount != 0
            ==> user_consistent(instant_withdraw_user(user, amount, now)),
        instant_withdraw_defined(pool, user, amount, now) && user.stake_amount != 0
            && instant_withdraw_user(user, amount, now).stake_amount == 0 ==> !instant_withdraw_user(
            user,
            amount,
            now,
        ).withdrawable && instant_withdraw_user(user, amount, now).withdraw_amount == 0,
        user.stake_amount != 0 ==> user_consistent(request_withdraw_user(user, amount, now)),
        !cancel_request_refused(user) ==> user_consistent(cancel_request_user(user, now)),
        user.withdraw_amount != 0 ==> user_consistent(withdraw_user(user, now)),
{
}

/// Deposits and instant withdrawals move the pool's total by exactly the
/// amount by which they move the user's stake.
pub proof fn lemma_tvl_follows_stake(pool: Pool, user: UserData, amount: u64, now: i64)
    ensures
        deposit_defined(pool, user, amount, now) && !deposit_exceeds_cap(pool, user, amount) ==> {
            &&& deposit_pool(pool, user, amount, now).tvl - pool.tvl == deposit_user(
                user,
                amount,
                now,
            ).stake_amount - user.stake_amount
        },
        instant_withdraw_defined(pool, user, amount, now) && user.stake_amount != 0 ==> {
            &&& pool.tvl - instant_withdraw_pool(pool, user, amount, now).tvl == user.stake_amount
                - instant_withdraw_user(user, amount, now).stake_amount
        },
{
}

/// No operation lowers the pool's count of rewards paid.
pub proof fn lemma_reward_total_grows(pool: Pool, user: UserData, amount: u64, now: i64)
    ensures
        deposit_defined(pool, user, amount, now) && !deposit_exceeds_cap(pool, user, amount)
            ==> deposit_pool(pool, user, amount, now).reward >= pool.reward,
        instant_withdraw_defined(pool, user, amount, now) && user.stake_amount != 0
            ==> instant_withdraw_pool(pool, user, amount, now).reward >= pool.reward,
        request_withdraw_defined(pool, user, now) && user.stake_amount != 0
            ==> request_withdraw_pool(pool, user, now).reward >= pool.reward,
        unrequested_reward_defined(pool, user, now) ==> pool_after_unrequested_reward(
            pool,
            user,
            now,
        ).reward >= pool.reward,
{
    if user.stake_amount - user.withdraw_amount > 0 && now as u64 >= user.last_time {
        lemma_accrued_reward_nonnegative(
            user.stake_amount - user.withdraw_amount,
            user.reward_rate as int,
            elapsed(now, user.last_time),
        );
    }
    if now as u64 >= user.last_time {
        lemma_accrued_reward_nonnegative(
            user.stake_amount as int,
            user.reward_rate as int,
            elapsed(now, user.last_time),
        );
    }
}

/// The reward on a non-negative stake over a non-negative time is non-negative.
pub proof fn lemma_accrued_reward_nonnegative(base: int, rate: int, seconds: int)
    requires
        base >= 0,
        rate >= 0,
        seconds >= 0,
    ensures
        accrued_reward(base, rate, seconds) >= 0,
{
    assert(base * rate >= 0) by (nonlinear_arith)
        requires
            base >= 0,
            rate >= 0,
    ;
    let q = base * rate / 10000 / 365 / 24 / 60 / 60;
    assert(q * seconds >= 0) by (nonlinear_arith)
        requires
            q >= 0,
            seconds >= 0,
    ;
}

/// Cancelling a request undoes it: from a stake without a pending request, a
/// request followed by its cancellation leaves the stake as it was but for the
/// time of the last action.
pub proof fn lemma_cancel_undoes_request(user: UserData, amount: u64, requested_at: i64, cancelled_at: i64)
    requires
        user.stake_amount != 0,
        !user.withdrawable,
        user.withdraw_amount == 0,
        user.request_time == 0,
    ensures
        !cancel_request_refused(request_withdraw_user(user, amount, requested_at)),
        cancel_request_user(request_withdraw_user(user, amount, requested_at), cancelled_at) == (
        UserData { last_time: cancelled_at as u64, ..user }),
{
}

/// The pool's and the trader's shares of a deposit add up to the deposit, less
/// at most one token unit lost to rounding.
pub proof fn lemma_deposit_split(pool: Pool, user: UserData, amount: u64, now: i64)
    requires
        amount * 6 <= u64::MAX,
    ensures
        ({
            let t = deposit_transfers(pool, user, amount, now);
            &&& t[0].amount + t[1].amount <= amount
            &&& t[0].amount + t[1].amount >= amount - 1
            &&& (amount % 10 == 0 ==> t[0].amount + t[1].amount == amount)
        }),
{
    let t = deposit_transfers(pool, user, amount, now);
    assert(t[0].amount == amount * 4 / 10);
    assert(t[1].amount == amount * 6 / 10);
    let a = amount as int;
    assert(a * 4 / 10 + a * 6 / 10 <= a && a * 4 / 10 + a * 6 / 10 >= a - 1 && (a % 10 == 0 ==> a
        * 4 / 10 + a * 6 / 10 == a)) by (nonlinear_arith)
        requires
            a >= 0,
    ;
}

/// An instant withdrawal never takes more than the stake; what the user
/// receives and the fee add up to what leaves the stake; the NFT returns
/// exactly when the whole stake leaves.
pub proof fn lemma_instant_withdraw_split(pool: Pool, user: UserData, amount: u64, now: i64)
    requires
        instant_withdraw_defined(pool, user, amount, now),
        user.stake_amount != 0,
    ensures
        ({
            let t = instant_withdraw_transfers(pool, user, amount, now);
            let a = withdrawal(user, amount);
            &&& a <= user.stake_amount
            &&& a <= amount
            &&& t[t.len() - 2].amount + t[t.len() - 1].amount == a
            &&& t[t.len() - 1].amount == withdrawal_fee(pool, a)
            &&& (t.len() >= 3 && t[t.len() - 3] == nft_return()) <==> a == user.stake_amount
        }),
{
    let t = instant_withdraw_transfers(pool, user, amount, now);
    assert(withdrawal_fee(pool, withdrawal(user, amount)) >= 0) by (nonlinear_arith)
        requires
            withdrawal(user, amount) >= 0,
            pool.fee >= 0,
    ;
}

/// A successful deposit never lifts the stake above the user's cap.
pub proof fn lemma_deposit_within_cap(pool: Pool, user: UserData, amount: u64, now: i64)
    requires
        deposit_defined(pool, user, amount, now),
        !deposit_exceeds_cap(pool, user, amount),
    ensures
        deposit_user(user, amount, now).stake_amount <= deposit_cap(pool.deposit_limit, user.reward_rate),
{
}

/// A listing fills the next slots with the listed mints, at rates that rise
/// by the raising rate from one slot to the next: from 1000 in an empty
/// ledger, and from the last filled slot's rate otherwise.
pub proof fn lemma_listing_progression(before: Seq<u8>, after: Seq<u8>, nfts: Seq<Address>)
    requires
        set_list_defined(before, nfts.len() as int),
        listing_written(before, after, nfts, nfts.len() as int),
    ensures
        forall|i: int|
            0 <= i < nfts.len() ==> entry_rate(after, stored_last_number(before) + i) == #[trigger] listed_rate(
                before,
                i,
            ),
        forall|i: int|
            0 <= i < nfts.len() ==> entry_mint(after, stored_last_number(before) + i) == #[trigger] nfts[i]@,
        forall|i: int|
            0 < i < nfts.len() ==> #[trigger] entry_rate(after, stored_last_number(before) + i)
                == entry_rate(after, stored_last_number(before) + i - 1) + stored_rasing_rate(before),
        nfts.len() > 0 && stored_last_number(before) == 0 ==> entry_rate(after, 0) == 1000,
        nfts.len() > 0 && stored_last_number(before) != 0 ==> entry_rate(after, stored_last_number(before) as int)
            == entry_rate(before, stored_last_number(before) - 1) + stored_rasing_rate(before),
{
    lemma_auto_spec_u64_to_from_le_bytes();
    let last = stored_last_number(before) as int;
    let rasing = stored_rasing_rate(before) as int;
    let n = nfts.len() as int;
    assert forall|i: int| #![trigger nfts[i]] #![trigger listed_rate(before, i)]
        0 <= i < n implies entry_rate(after, last + i) == listed_rate(before, i)
            && entry_mint(after, last + i) == nfts[i]@ by {
        let o = entry_offset(last + i);
        let e = listed_entry(before, nfts, i);
        let s = after.subrange(o, o + DAILY_LEDGER_SIZE);
        assert(s == reward_rate_bytes(e));
        assert(after.subrange(o, o + 8) =~= s.subrange(0, 8));
        assert(s.subrange(0, 8) =~= vstd::bytes::spec_u64_to_le_bytes(e.reward_rate));
        assert(after.subrange(o + 8, o + 40) =~= s.subrange(8, 40));
        assert(s.subrange(8, 40) =~= e.mint@);
        if last == 0 {
            assert(0 <= rasing * i <= 255 * 0xffff_ffff) by (nonlinear_arith)
                requires
                    0 <= rasing <= 255,
                    0 <= i <= 0xffff_ffff,
            ;
        } else {
            assert(0 <= rasing * (i + 1) <= rasing * n) by (nonlinear_arith)
                requires
                    0 <= rasing,
                    0 <= i < n,
            ;
        }
        assert(0 <= listed_rate(before, i) <= u64::MAX);
        assert(e.reward_rate == listed_rate(before, i));
        assert(entry_rate(after, last + i) == e.reward_rate);
        assert(entry_mint(after, last + i) == e.mint@);
    }
    assert forall|i: int| 0 < i < n implies #[trigger] entry_rate(after, last + i) == entry_rate(
        after,
        last + i - 1,
    ) + rasing by {
        assert(entry_rate(after, last + i) == listed_rate(before, i));
        assert(entry_rate(after, last + (i - 1)) == listed_rate(before, i - 1));
        assert(last + (i - 1) == last + i - 1);
        assert(rasing * i == rasing * (i - 1) + rasing) by (nonlinear_arith);
        assert(rasing * (i + 1) == rasing * i + rasing) by (nonlinear_arith);
    }
    if n > 0 {
        assert(entry_rate(after, last + 0) == listed_rate(before, 0));
        assert(last + 0 == last);
        assert(rasing * 0 == 0) by (nonlinear_arith);
        assert(rasing * (0 + 1) == rasing) by (nonlinear_arith);
    }
}

/// A second withdrawal request replaces the first: the user's stake after
/// requesting twice is what requesting only the second time gives.
pub proof fn lemma_request_replaces_request(user: UserData, first: u64, second: u64, t1: i64, t2: i64)
    requires
        user.stake_amount != 0,
    ensures
        request_withdraw_user(user, first, t1).stake_amount != 0,
        request_withdraw_user(request_withdraw_user(user, first, t1), second, t2)
            == request_withdraw_user(user, second, t2),
        request_withdraw_user(user, second, t2).withdraw_amount == if second >= user.stake_amount {
            user.stake_amount
        } else {
            second
        },
{
}

/// Two ledgers that each hold the same listing over `before`, with the same
/// count of filled slots, are the same ledger: a listing's result is unique.
pub proof fn lemma_listing_unique(before: Seq<u8>, x: Seq<u8>, y: Seq<u8>, nfts: Seq<Address>)
    requires
        set_list_defined(before, nfts.len() as int),
        listing_written(before, x, nfts, nfts.len() as int),
        listing_written(before, y, nfts, nfts.len() as int),
        stored_last_number(x) == stored_last_number(y),
    ensures
        x == y,
{
    lemma_auto_spec_u32_to_from_le_bytes();
    let last = stored_last_number(before) as int;
    let n = nfts.len() as int;
    assert(x.subrange(41, 45) == spec_u32_to_le_bytes(stored_last_number(x)));
    assert(y.subrange(41, 45) == spec_u32_to_le_bytes(stored_last_number(y)));
    assert forall|p: int| 0 <= p < x.len() implies x[p] == y[p] by {
        if LAST_NUMBER_OFFSET <= p < LAST_NUMBER_OFFSET + 4 {
            assert(x[p] == x.subrange(41, 45)[p - 41]);
            assert(y[p] == y.subrange(41, 45)[p - 41]);
        } else if entry_offset(last) <= p < entry_offset(last + n) {
            let k = (p - entry_offset(last)) / 40;
            let q = entry_offset(last + k);
            assert(0 <= k < n);
            assert(q <= p < q + 40);
            assert(nfts[k] == nfts[k]);
            assert(x[p] == x.subrange(q, q + 40)[p - q]);
            assert(y[p] == y.subrange(q, q + 40)[p - q]);
        } else {
            assert(x[p] == before[p]);
            assert(y[p] == before[p]);
        }
    }
    assert(x =~= y);
}

/// Listing `a` and then `b` writes the same ledger as listing `a` followed by
/// `b` in one call: both calls are in range when the single one is, and any
/// ledger that the single call writes equals the one that the two calls write.
pub proof fn lemma_two_listings_make_one(
    d0: Seq<u8>,
    d1: Seq<u8>,
    d2: Seq<u8>,
    a: Seq<Address>,
    b: Seq<Address>,
)
    requires
        set_list_defined(d0, (a.len() + b.len()) as int),
        listing_written(d0, d1, a, a.len() as int),
        stored_last_number(d1) == stored_last_number(d0) + a.len(),
        listing_written(d1, d2, b, b.len() as int),
        stored_last_number(d2) == stored_last_number(d1) + b.len(),
    ensures
        set_list_defined(d0, a.len() as int),
        set_list_defined(d1, b.len() as int),
        listing_written(d0, d2, a + b, (a.len() + b.len()) as int),
        stored_last_number(d2) == stored_last_number(d0) + a.len() + b.len(),
        forall|d3: Seq<u8>|
            #[trigger] listing_written(d0, d3, a + b, (a.len() + b.len()) as int) && stored_last_number(d3)
                == stored_last_number(d0) + a.len() + b.len() ==> d3 == d2,
{
    lemma_auto_spec_u64_to_from_le_bytes();
    let last = stored_last_number(d0) as int;
    let rasing = stored_rasing_rate(d0) as int;
    let na = a.len() as int;
    let nb = b.len() as int;
    let ab = a + b;
    let last1 = stored_last_number(d1) as int;
    assert(last1 == last + na);
    // The raising rate and the slots before the listing are untouched.
    assert(d1[40] == d0[40]);
    assert(stored_rasing_rate(d1) == rasing);
    // The first call is in range.
    assert(set_list_defined(d0, na)) by {
        if last != 0 && na > 0 {
            assert(rasing * na <= rasing * (na + nb)) by (nonlinear_arith)
                requires
                    0 <= rasing,
                    0 <= na,
                    0 <= nb,
            ;
        }
    }
    // The rate of the last filled slot after the first call.
    if na > 0 {
        lemma_listing_progression(d0, d1, a);
        assert(entry_rate(d1, last1 - 1) == listed_rate(d0, na - 1)) by {
            assert(listed_rate(d0, na - 1) == listed_rate(d0, na - 1));
            assert(last + (na - 1) == last1 - 1);
        }
    } else if last != 0 {
        let o = entry_offset(last - 1);
        assert(d1.subrange(o, o + 8) =~= d0.subrange(o, o + 8));
        assert(entry_rate(d1, last1 - 1) == entry_rate(d0, last - 1));
    }
    // Each rate of the second call continues the single listing.
    assert forall|j: int| 0 <= j < nb implies #[trigger] listed_rate(d1, j) == listed_rate(d0, na + j) by {
        if last == 0 {
            if na == 0 {
            } else {
                assert(rasing * (na - 1) + rasing * (j + 1) == rasing * (na + j)) by (nonlinear_arith);
            }
        } else {
            if na == 0 {
            } else {
                assert(rasing * na + rasing * (j + 1) == rasing * (na + j + 1)) by (nonlinear_arith);
            }
        }
    }
    // The second call is in range.
    assert(set_list_defined(d1, nb)) by {
        if last1 != 0 && nb > 0 {
            assert(listed_rate(d1, nb - 1) == listed_rate(d0, na + nb - 1));
            if last == 0 {
                assert(0 <= rasing * (na + nb - 1) <= 255 * 0xffff_ffff) by (nonlinear_arith)
                    requires
                        0 <= rasing <= 255,
                        0 <= na + nb - 1 <= 0xffff_ffff,
                ;
            }
        }
    }
    // The ledger after both calls holds the single listing.
    assert forall|i: int| #![trigger ab[i]]
        0 <= i < na + nb implies d2.subrange(
            entry_offset(last + i),
            entry_offset(last + i) + DAILY_LEDGER_SIZE,
        ) == reward_rate_bytes(listed_entry(d0, ab, i)) by {
        let q = entry_offset(last + i);
        if i < na {
            assert(a[i] == a[i]);
            assert(d2.subrange(q, q + 40) =~= d1.subrange(q, q + 40));
            assert(listed_entry(d0, ab, i) == listed_entry(d0, a, i));
        } else {
            let j = i - na;
            assert(b[j] == b[j]);
            assert(last1 + j == last + i);
            assert(listed_rate(d1, j) == listed_rate(d0, i));
            assert(listed_entry(d0, ab, i) == listed_entry(d1, b, j));
        }
    }
    assert forall|p: int|
        0 <= p < d0.len() && !(entry_offset(last) <= p < entry_offset(last + na + nb))
            && !(LAST_NUMBER_OFFSET <= p < LAST_NUMBER_OFFSET + 4) implies #[trigger] d2[p] == d0[p] by {
        assert(d2[p] == d1[p]);
        assert(d1[p] == d0[p]);
    }
    assert(listing_written(d0, d2, ab, na + nb));
    assert forall|d3: Seq<u8>|
        #[trigger] listing_written(d0, d3, ab, na + nb) && stored_last_number(d3) == last + na + nb
            implies d3 == d2 by {
        lemma_listing_unique(d0, d3, d2, ab);
    }
}

} // verus!
