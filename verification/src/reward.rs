use vstd::prelude::*;
use crate::types::{Pool, UserData, PERIOD};

verus! {

/// Seconds from `since` to the clock's `now`, with `now` read as unsigned.
pub open spec fn elapsed(now: i64, since: u64) -> int {
    now as u64 - since
}

/// The reward on `base` staked tokens at a yearly rate of `rate` basis points
/// over `seconds`: the per-second amount is rounded down before it is
/// multiplied by the time.
pub open spec fn accrued_reward(base: int, rate: int, seconds: int) -> int {
    base * rate / 10000 / 365 / 24 / 60 / 60 * seconds
}

/// `accrued_reward` stays within `u64` at every step of its computation.
pub open spec fn accrued_reward_fits(base: int, rate: int, seconds: int) -> bool {
    &&& base * rate <= u64::MAX
    &&& accrued_reward(base, rate, seconds) <= u64::MAX
}

/// The reward lock of the pool is over for the user at `now`.
pub open spec fn reward_lock_over(pool: Pool, user: UserData, now: i64) -> bool {
    elapsed(now, user.last_time) > pool.reward_lock_period * PERIOD
}

/// Computes `accrued_reward` with `u64` arithmetic.
pub fn compute_reward(base: u64, rate: u64, seconds: u64) -> (r: u64)
    requires
        accrued_reward_fits(base as int, rate as int, seconds as int),
    ensures
        r == accrued_reward(base as int, rate as int, seconds as int),
{
    base * rate / 10000 / 365 / 24 / 60 / 60 * seconds
}

/// Whether `compute_reward` may be called on these arguments.
pub fn reward_fits(base: u64, rate: u64, seconds: u64) -> (b: bool)
    ensures
        b == accrued_reward_fits(base as int, rate as int, seconds as int),
{
    match base.checked_mul(rate) {
        None => false,
        Some(p) => (p / 10000 / 365 / 24 / 60 / 60).checked_mul(seconds).is_some(),
    }
}

} // verus!
