use vstd::prelude::*;

verus! {

/// A 32-byte account address.
pub type Address = [u8; 32];

/// Seconds in a day: lock periods are counted in days.
pub const PERIOD: usize = 24 * 60 * 60;

/// Serialized size of a `Pool` account, without its 8-byte discriminator.
pub const POOL_SIZE: usize = 32 + 32 + 32 + 32 + 32 + 32 + 32 + 8 + 8 + 8 + 8 + 8 + 8 + 8 + 1 + 1;

/// Serialized size of a `UserData` account, without its 8-byte discriminator.
pub const USER_DATA_SIZE: usize = 32 + 32 + 32 + 8 + 8 + 8 + 8 + 8 + 1 + 1;

/// Number of reward-rate slots that a ledger holds.
pub const MAX_LEN: usize = 1111;

/// Serialized size of one `RewardRate` ledger slot.
pub const DAILY_LEDGER_SIZE: usize = 8 + 32;

/// Size of a ledger account's data, without its 8-byte discriminator.
pub const POOL_LEDGER_SIZE: usize = 32 + 1 + 4 + 4 + DAILY_LEDGER_SIZE * MAX_LEN;

/// One slot of the reward-rate ledger: the yearly reward rate (in basis
/// points) granted to the holder of the NFT `mint`.
#[derive(Clone, Copy)]
pub struct RewardRate {
    pub reward_rate: u64,
    pub mint: Address,
}

} // verus!

verus! {

/// The errors with which an instruction of the pool refuses.
#[derive(Debug, Clone, Copy, PartialEq, Eq, Structural)]
pub enum PoolError {
    TokenMintToFailed,
    TokenSetAuthorityFailed,
    TokenTransferFailed,
    TokenBurnFailed,
    InvalidRanking,
    InvalidTime,
    InvalidPoolLedger,
    InvalidPeriod,
    InvalidMetadataExtended,
    InvalidTokenMint,
    InvalidStakeAmount,
    InvalidWithdrawAmount,
}

} // verus!

verus! {

/// The reward-rate ledger of a pool, as its account data serializes it: the
/// pool's address, the raising rate, the count of filled slots, and the slots.
pub struct RateList {
    pub pool: Address,
    pub rasing_rate: u8,
    pub last_number: u32,
    pub ledger: Vec<RewardRate>,
}

} // verus!

verus! {

/// The state of a staking pool.
#[derive(Clone, Copy)]
pub struct Pool {
    pub owner: Address,
    pub token_mint: Address,
    pub collection: Address,
    pub pool_ledger: Address,
    pub rand: Address,
    pub fee_receiver: Address,
    pub trader: Address,
    pub start_at: u64,
    pub deposit_limit: u64,
    pub reward_lock_period: u64,
    pub withdraw_lock_period: u64,
    pub fee: u64,
    pub tvl: u64,
    pub reward: u64,
    pub decimals: u8,
    pub bump: u8,
}

/// The stake of one user in one pool.
#[derive(Clone, Copy)]
pub struct UserData {
    pub owner: Address,
    pub pool: Address,
    pub nft_mint: Address,
    pub stake_amount: u64,
    pub reward_rate: u64,
    pub last_time: u64,
    pub withdraw_amount: u64,
    pub request_time: u64,
    pub withdrawable: bool,
    pub bump: u8,
}

} // verus!

verus! {

/// Whether two addresses are the same.
pub fn same_address(a: &Address, b: &Address) -> (r: bool)
    ensures
        r == (a@ == b@),
{
    let mut i: usize = 0;
    while i < 32
        invariant
            i <= 32,
            forall|j: int| 0 <= j < i ==> a@[j] == b@[j],
        decreases 32 - i,
    {
        if a[i] != b[i] {
            return false;
        }
        i = i + 1;
    }
    assert(a@ =~= b@);
    true
}

} // verus!
