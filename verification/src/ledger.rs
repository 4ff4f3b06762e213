use vstd::prelude::*;
use vstd::bytes::*;
use crate::digest::{sha256, sha256_digest};
use crate::types::{Address, PoolError, RateList, RewardRate, DAILY_LEDGER_SIZE, MAX_LEN};

verus! {

/// Offset of the one-byte raising rate in the ledger data.
pub const RASING_RATE_OFFSET: usize = 40;

/// Offset of the little-endian `u32` count of filled slots.
pub const LAST_NUMBER_OFFSET: usize = 41;

/// Offset of the first reward-rate slot.
pub const ENTRIES_OFFSET: usize = 8 + 32 + 1 + 4 + 4;

/// Offset of the little-endian `u32` length of the serialized slot vector.
pub const SLOT_COUNT_OFFSET: usize = 45;

/// Position of the first byte of slot `index`; each slot takes
/// `DAILY_LEDGER_SIZE`, that is 40, bytes.
pub open spec fn entry_offset(index: int) -> int {
    ENTRIES_OFFSET as int + 40 * index
}

/// Slot `index` lies wholly inside the ledger data.
pub open spec fn has_entry(data: Seq<u8>, index: int) -> bool {
    0 <= index && entry_offset(index) + DAILY_LEDGER_SIZE as int <= data.len()
}

/// The reward rate stored in slot `index`.
pub open spec fn entry_rate(data: Seq<u8>, index: int) -> u64 {
    spec_u64_from_le_bytes(data.subrange(entry_offset(index), entry_offset(index) + 8))
}

/// The NFT mint stored in slot `index`.
pub open spec fn entry_mint(data: Seq<u8>, index: int) -> Seq<u8> {
    data.subrange(entry_offset(index) + 8, entry_offset(index) + DAILY_LEDGER_SIZE as int)
}

/// The serialized form of one slot: the rate in little-endian order, then the mint.
pub open spec fn reward_rate_bytes(r: RewardRate) -> Seq<u8> {
    spec_u64_to_le_bytes(r.reward_rate) + r.mint@
}

/// The raising rate stored in the ledger header.
pub open spec fn stored_rasing_rate(data: Seq<u8>) -> u8 {
    data[RASING_RATE_OFFSET as int]
}

/// The count of filled slots stored in the ledger header.
pub open spec fn stored_last_number(data: Seq<u8>) -> u32 {
    spec_u32_from_le_bytes(data.subrange(LAST_NUMBER_OFFSET as int, LAST_NUMBER_OFFSET as int + 4))
}

/// The length of the slot vector stored in the ledger header.
pub open spec fn stored_slot_count(data: Seq<u8>) -> u32 {
    spec_u32_from_le_bytes(data.subrange(SLOT_COUNT_OFFSET as int, SLOT_COUNT_OFFSET as int + 4))
}

/// `data` with `bytes` written over it from position `at` on.
pub open spec fn overwrite(data: Seq<u8>, at: int, bytes: Seq<u8>) -> Seq<u8> {
    Seq::new(data.len(), |j: int| if at <= j < at + bytes.len() { bytes[j - at] } else { data[j] })
}

/// Writes `bytes` into `a` at position `at`.
fn write_bytes(a: &mut [u8], at: usize, bytes: &Vec<u8>)
    requires
        at + bytes@.len() <= old(a)@.len(),
    ensures
        final(a)@ == overwrite(old(a)@, at as int, bytes@),
{
    let n = bytes.len();
    let len = a.len();
    let mut i: usize = 0;
    while i < n
        invariant
            n == bytes@.len(),
            i <= n,
            len == a@.len(),
            at + n <= len,
            a@ == overwrite(old(a)@, at as int, bytes@.take(i as int)),
        decreases n - i,
    {
        a[at + i] = bytes[i];
        i = i + 1;
        assert(a@ =~= overwrite(old(a)@, at as int, bytes@.take(i as int)));
    }
    assert(bytes@.take(n as int) =~= bytes@);
}

/// The bytes of "account:RateList", whose digest names the ledger's account type.
pub open spec fn rate_list_preimage() -> Seq<u8> {
    seq![97u8, 99, 99, 111, 117, 110, 116, 58, 82, 97, 116, 101, 76, 105, 115, 116]
}

/// The 8-byte discriminator that opens the data of a ledger account.
pub open spec fn rate_list_discriminator() -> Seq<u8> {
    Seq::new(8, |i: int| sha256(rate_list_preimage())[i])
}

impl RateList {
    /// The first 8 bytes of the SHA-256 digest of "account:RateList".
    pub fn discriminator() -> (d: [u8; 8])
        ensures
            d@ == rate_list_discriminator(),
    {
        let preimage: [u8; 16] = [97, 99, 99, 111, 117, 110, 116, 58, 82, 97, 116, 101, 76, 105, 115, 116];
        assert(preimage@ =~= rate_list_preimage());
        let digest = sha256_digest(preimage.as_slice());
        let mut d: [u8; 8] = [0u8; 8];
        let mut i: usize = 0;
        while i < 8
            invariant
                i <= 8,
                digest@ == sha256(rate_list_preimage()),
                forall|j: int| 0 <= j < i ==> d@[j] == digest@[j],
            decreases 8 - i,
        {
            d[i] = digest[i];
            i = i + 1;
        }
        assert(d@ =~= rate_list_discriminator());
        d
    }
}

/// The 49 bytes that open a fresh ledger of `pool`: the discriminator, the
/// pool's address, a zero raising rate, a zero count of filled slots, and
/// the length of the slot vector.
pub open spec fn fresh_ledger_header(pool: Seq<u8>) -> Seq<u8> {
    rate_list_discriminator() + pool + seq![0u8] + spec_u32_to_le_bytes(0) + spec_u32_to_le_bytes(
        MAX_LEN as u32,
    )
}

/// Writes the header of a fresh ledger of `pool` over the start of `a`.
pub fn write_ledger_header(a: &mut [u8], pool: &Address)
    requires
        old(a)@.len() >= ENTRIES_OFFSET,
    ensures
        final(a)@ == overwrite(old(a)@, 0, fresh_ledger_header(pool@)),
{
    let disc = RateList::discriminator();
    let mut new_data: Vec<u8> = Vec::new();
    let mut i: usize = 0;
    while i < 8
        invariant
            i <= 8,
            new_data@ == disc@.take(i as int),
        decreases 8 - i,
    {
        new_data.push(disc[i]);
        i = i + 1;
        assert(new_data@ =~= disc@.take(i as int));
    }
    let mut i: usize = 0;
    while i < 32
        invariant
            i <= 32,
            new_data@ == disc@ + pool@.take(i as int),
        decreases 32 - i,
    {
        new_data.push(pool[i]);
        i = i + 1;
        assert(new_data@ =~= disc@ + pool@.take(i as int));
    }
    new_data.push(0u8);
    let zero = u32_to_le_bytes(0);
    let count = u32_to_le_bytes(MAX_LEN as u32);
    let mut i: usize = 0;
    while i < 4
        invariant
            i <= 4,
            zero@.len() == 4,
            new_data@ == disc@ + pool@ + seq![0u8] + zero@.take(i as int),
        decreases 4 - i,
    {
        new_data.push(zero[i]);
        i = i + 1;
        assert(new_data@ =~= disc@ + pool@ + seq![0u8] + zero@.take(i as int));
    }
    let mut i: usize = 0;
    while i < 4
        invariant
            i <= 4,
            count@.len() == 4,
            new_data@ == disc@ + pool@ + seq![0u8] + zero@ + count@.take(i as int),
        decreases 4 - i,
    {
        new_data.push(count[i]);
        i = i + 1;
        assert(new_data@ =~= disc@ + pool@ + seq![0u8] + zero@ + count@.take(i as int));
    }
    assert(new_data@ =~= fresh_ledger_header(pool@));
    write_bytes(a, 0, &new_data);
}

/// A freshly written header names `pool`, has a zero raising rate, no filled
/// slots, and a slot vector of `MAX_LEN` slots.
pub proof fn lemma_fresh_ledger_header(data: Seq<u8>, pool: Address)
    requires
        data.len() >= ENTRIES_OFFSET,
    ensures
        ({
            let d = overwrite(data, 0, fresh_ledger_header(pool@));
            &&& d.len() == data.len()
            &&& d.subrange(0, 8) == rate_list_discriminator()
            &&& d.subrange(8, 40) == pool@
            &&& stored_rasing_rate(d) == 0
            &&& stored_last_number(d) == 0
            &&& stored_slot_count(d) == MAX_LEN
        }),
{
    lemma_auto_spec_u32_to_from_le_bytes();
    let h = fresh_ledger_header(pool@);
    let d = overwrite(data, 0, h);
    assert(d.subrange(0, 8) =~= rate_list_discriminator());
    assert(d.subrange(8, 40) =~= pool@);
    assert(d.subrange(41, 45) =~= spec_u32_to_le_bytes(0));
    assert(d.subrange(45, 49) =~= spec_u32_to_le_bytes(MAX_LEN as u32));
}

/// Whether slot `index` lies wholly inside the ledger data.
pub fn has_slot(a: &[u8], index: u64) -> (b: bool)
    ensures
        b == has_entry(a@, index as int),
{
    let len = a.len() as u64;
    assert(len == a@.len());
    match index.checked_mul(DAILY_LEDGER_SIZE as u64) {
        None => {
            assert(index * 40 > u64::MAX);
            false
        },
        Some(o) => match o.checked_add((ENTRIES_OFFSET + DAILY_LEDGER_SIZE) as u64) {
            None => false,
            Some(end) => end <= len,
        },
    }
}

/// Stores the raising rate in its byte of the ledger.
pub fn set_rasing_rate(a: &mut [u8], rasing_rate: u8)
    requires
        old(a)@.len() > RASING_RATE_OFFSET,
    ensures
        final(a)@ == old(a)@.update(RASING_RATE_OFFSET as int, rasing_rate),
{
    let mut bytes: Vec<u8> = Vec::new();
    bytes.push(rasing_rate);
    write_bytes(a, RASING_RATE_OFFSET, &bytes);
    assert(a@ =~= old(a)@.update(RASING_RATE_OFFSET as int, rasing_rate));
}

/// Reads the raising rate from its byte of the ledger.
pub fn get_rasing_rate(a: &[u8]) -> (r: Result<u8, PoolError>)
    requires
        a@.len() > RASING_RATE_OFFSET,
    ensures
        r == Ok::<u8, PoolError>(a@[RASING_RATE_OFFSET as int]),
{
    Ok(a[RASING_RATE_OFFSET])
}

/// Stores the count of filled slots in the ledger header.
pub fn set_last_number(a: &mut [u8], number: u32)
    requires
        old(a)@.len() >= LAST_NUMBER_OFFSET + 4,
    ensures
        final(a)@ == overwrite(old(a)@, LAST_NUMBER_OFFSET as int, spec_u32_to_le_bytes(number)),
{
    let bytes = u32_to_le_bytes(number);
    write_bytes(a, LAST_NUMBER_OFFSET, &bytes);
}

/// Reads the count of filled slots from the ledger header.
pub fn get_last_number(a: &[u8]) -> (r: Result<u32, PoolError>)
    requires
        a@.len() >= LAST_NUMBER_OFFSET + 4,
    ensures
        r == Ok::<u32, PoolError>(stored_last_number(a@)),
{
    let field = vstd::slice::slice_subrange(a, LAST_NUMBER_OFFSET, LAST_NUMBER_OFFSET + 4);
    Ok(u32_from_le_bytes(field))
}

/// Stores `daily_ledger` in slot `index`.
pub fn set_reward_rate(a: &mut [u8], index: usize, daily_ledger: RewardRate)
    requires
        has_entry(old(a)@, index as int),
    ensures
        final(a)@ == overwrite(old(a)@, entry_offset(index as int), reward_rate_bytes(daily_ledger)),
{
    let len = a.len();
    let mut bytes = u64_to_le_bytes(daily_ledger.reward_rate);
    let mut i: usize = 0;
    while i < 32
        invariant
            i <= 32,
            bytes@ == spec_u64_to_le_bytes(daily_ledger.reward_rate) + daily_ledger.mint@.take(i as int),
        decreases 32 - i,
    {
        bytes.push(daily_ledger.mint[i]);
        i = i + 1;
        assert(bytes@ =~= spec_u64_to_le_bytes(daily_ledger.reward_rate) + daily_ledger.mint@.take(i as int));
    }
    assert(daily_ledger.mint@.take(32) =~= daily_ledger.mint@);
    write_bytes(a, ENTRIES_OFFSET + DAILY_LEDGER_SIZE * index, &bytes);
}

/// Reads slot `index`.
pub fn get_reward_rate(a: &[u8], index: usize) -> (r: Result<RewardRate, PoolError>)
    requires
        has_entry(a@, index as int),
    ensures
        r is Ok,
        r->Ok_0.reward_rate == entry_rate(a@, index as int),
        r->Ok_0.mint@ == entry_mint(a@, index as int),
{
    let len = a.len();
    let start = ENTRIES_OFFSET + DAILY_LEDGER_SIZE * index;
    let rate = u64_from_le_bytes(vstd::slice::slice_subrange(a, start, start + 8));
    let mut mint: Address = [0u8; 32];
    let mut i: usize = 0;
    while i < 32
        invariant
            i <= 32,
            len == a@.len(),
            start + DAILY_LEDGER_SIZE <= len,
            forall|j: int| 0 <= j < i ==> mint@[j] == a@[start + 8 + j],
        decreases 32 - i,
    {
        mint[i] = a[start + 8 + i];
        i = i + 1;
    }
    assert(mint@ =~= a@.subrange(start + 8, start + DAILY_LEDGER_SIZE));
    Ok(RewardRate { reward_rate: rate, mint })
}

/// Writing a slot and reading it back gives what was written; every other
/// slot and the header fields read as before.
pub proof fn lemma_reward_rate_read_back(data: Seq<u8>, index: int, r: RewardRate)
    requires
        has_entry(data, index),
    ensures
        ({
            let d = overwrite(data, entry_offset(index), reward_rate_bytes(r));
            &&& d.len() == data.len()
            &&& entry_rate(d, index) == r.reward_rate
            &&& entry_mint(d, index) == r.mint@
            &&& forall|j: int| #![trigger entry_rate(d, j)] #![trigger entry_mint(d, j)]
                    has_entry(data, j) && j != index ==> entry_rate(d, j) == entry_rate(data, j)
                        && entry_mint(d, j) == entry_mint(data, j)
            &&& stored_rasing_rate(d) == stored_rasing_rate(data)
            &&& stored_last_number(d) == stored_last_number(data)
            &&& stored_slot_count(d) == stored_slot_count(data)
        }),
{
    lemma_auto_spec_u64_to_from_le_bytes();
    let o = entry_offset(index);
    let d = overwrite(data, o, reward_rate_bytes(r));
    assert(reward_rate_bytes(r).len() == 40);
    assert(d.subrange(o, o + 8) =~= spec_u64_to_le_bytes(r.reward_rate));
    assert(d.subrange(o + 8, o + 40) =~= r.mint@);
    assert forall|j: int| #![trigger entry_rate(d, j)] #![trigger entry_mint(d, j)]
        has_entry(data, j) && j != index implies entry_rate(d, j) == entry_rate(data, j)
            && entry_mint(d, j) == entry_mint(data, j) by {
        let p = entry_offset(j);
        assert(p + 40 <= o || o + 40 <= p);
        assert(d.subrange(p, p + 8) =~= data.subrange(p, p + 8));
        assert(d.subrange(p + 8, p + 40) =~= data.subrange(p + 8, p + 40));
    }
    assert(d.subrange(41, 45) =~= data.subrange(41, 45));
    assert(d.subrange(45, 49) =~= data.subrange(45, 49));
}

/// Writing the count of filled slots and reading it back gives what was
/// written; the raising rate, the slot vector length and every slot read as before.
pub proof fn lemma_last_number_read_back(data: Seq<u8>, number: u32)
    requires
        data.len() >= LAST_NUMBER_OFFSET + 4,
    ensures
        ({
            let d = overwrite(data, LAST_NUMBER_OFFSET as int, spec_u32_to_le_bytes(number));
            &&& d.len() == data.len()
            &&& stored_last_number(d) == number
            &&& stored_rasing_rate(d) == stored_rasing_rate(data)
            &&& (data.len() >= SLOT_COUNT_OFFSET + 4 ==> stored_slot_count(d) == stored_slot_count(data))
            &&& forall|j: int| #![trigger entry_rate(d, j)] #![trigger entry_mint(d, j)]
                    has_entry(data, j) ==> entry_rate(d, j) == entry_rate(data, j)
                        && entry_mint(d, j) == entry_mint(data, j)
        }),
{
    lemma_auto_spec_u32_to_from_le_bytes();
    let d = overwrite(data, LAST_NUMBER_OFFSET as int, spec_u32_to_le_bytes(number));
    assert(d.subrange(41, 45) =~= spec_u32_to_le_bytes(number));
    if data.len() >= SLOT_COUNT_OFFSET + 4 {
        assert(d.subrange(45, 49) =~= data.subrange(45, 49));
    }
    assert forall|j: int| #![trigger entry_rate(d, j)] #![trigger entry_mint(d, j)]
        has_entry(data, j) implies entry_rate(d, j) == entry_rate(data, j)
            && entry_mint(d, j) == entry_mint(data, j) by {
        let p = entry_offset(j);
        assert(d.subrange(p, p + 8) =~= data.subrange(p, p + 8));
        assert(d.subrange(p + 8, p + 40) =~= data.subrange(p + 8, p + 40));
    }
}

/// Writing the raising rate and reading it back gives what was written; the
/// count of filled slots, the slot vector length and every slot read as before.
pub proof fn lemma_rasing_rate_read_back(data: Seq<u8>, rasing_rate: u8)
    requires
        data.len() > RASING_RATE_OFFSET,
    ensures
        ({
            let d = data.update(RASING_RATE_OFFSET as int, rasing_rate);
            &&& stored_rasing_rate(d) == rasing_rate
            &&& (data.len() >= LAST_NUMBER_OFFSET + 4 ==> stored_last_number(d) == stored_last_number(data))
            &&& (data.len() >= SLOT_COUNT_OFFSET + 4 ==> stored_slot_count(d) == stored_slot_count(data))
            &&& forall|j: int| #![trigger entry_rate(d, j)] #![trigger entry_mint(d, j)]
                    has_entry(data, j) ==> entry_rate(d, j) == entry_rate(data, j)
                        && entry_mint(d, j) == entry_mint(data, j)
        }),
{
    let d = data.update(RASING_RATE_OFFSET as int, rasing_rate);
    if data.len() >= LAST_NUMBER_OFFSET + 4 {
        assert(d.subrange(41, 45) =~= data.subrange(41, 45));
    }
    if data.len() >= SLOT_COUNT_OFFSET + 4 {
        assert(d.subrange(45, 49) =~= data.subrange(45, 49));
    }
    assert forall|j: int| #![trigger entry_rate(d, j)] #![trigger entry_mint(d, j)]
        has_entry(data, j) implies entry_rate(d, j) == entry_rate(data, j)
            && entry_mint(d, j) == entry_mint(data, j) by {
        let p = entry_offset(j);
        assert(d.subrange(p, p + 8) =~= data.subrange(p, p + 8));
        assert(d.subrange(p + 8, p + 40) =~= data.subrange(p + 8, p + 40));
    }
}

} // verus!
