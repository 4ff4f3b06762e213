use solana_anchor::ledger::{
    get_last_number, get_rasing_rate, get_reward_rate, has_slot, set_last_number, set_rasing_rate,
    set_reward_rate, write_ledger_header, ENTRIES_OFFSET,
};
use solana_anchor::types::{RateList, RewardRate, DAILY_LEDGER_SIZE, MAX_LEN, POOL_LEDGER_SIZE};

fn key(b: u8) -> [u8; 32] {
    [b; 32]
}

#[test]
fn discriminator_is_sha256_prefix_of_account_name() {
    assert_eq!(RateList::discriminator(), [79, 183, 16, 41, 198, 182, 134, 160]);
}

#[test]
fn ledger_size_matches_layout() {
    assert_eq!(POOL_LEDGER_SIZE, 44481);
    assert_eq!(8 + POOL_LEDGER_SIZE, ENTRIES_OFFSET + DAILY_LEDGER_SIZE * MAX_LEN);
}

#[test]
fn fresh_header_layout() {
    let mut data = vec![0xAAu8; 200];
    write_ledger_header(&mut data, &key(7));
    assert_eq!(&data[0..8], &[79, 183, 16, 41, 198, 182, 134, 160]);
    assert_eq!(&data[8..40], &[7u8; 32]);
    assert_eq!(data[40], 0);
    assert_eq!(&data[41..45], &[0, 0, 0, 0]);
    assert_eq!(&data[45..49], &[0x57, 0x04, 0, 0]);
    assert_eq!(data[49], 0xAA);
    assert_eq!(get_rasing_rate(&data), Ok(0));
    assert_eq!(get_last_number(&data), Ok(0));
}

#[test]
fn rasing_rate_read_back() {
    let mut data = vec![0u8; 60];
    set_last_number(&mut data, 9);
    set_rasing_rate(&mut data, 17);
    assert_eq!(data[40], 17);
    assert_eq!(get_rasing_rate(&data), Ok(17));
    assert_eq!(get_last_number(&data), Ok(9));
}

#[test]
fn last_number_is_little_endian() {
    let mut data = vec![0u8; 60];
    set_rasing_rate(&mut data, 3);
    set_last_number(&mut data, 0x0102_0304);
    assert_eq!(&data[41..45], &[4, 3, 2, 1]);
    assert_eq!(get_last_number(&data), Ok(0x0102_0304));
    assert_eq!(get_rasing_rate(&data), Ok(3));
}

#[test]
fn reward_rate_read_back_and_neighbours() {
    let mut data = vec![0u8; ENTRIES_OFFSET + DAILY_LEDGER_SIZE * 4];
    let a = RewardRate { reward_rate: 0x0102_0304_0506_0708, mint: key(1) };
    let b = RewardRate { reward_rate: 1005, mint: key(2) };
    set_reward_rate(&mut data, 3, a);
    set_reward_rate(&mut data, 1, b);
    let start = ENTRIES_OFFSET + DAILY_LEDGER_SIZE * 3;
    assert_eq!(&data[start..start + 8], &[8, 7, 6, 5, 4, 3, 2, 1]);
    let got = get_reward_rate(&data, 3).unwrap();
    assert_eq!(got.reward_rate, 0x0102_0304_0506_0708);
    assert_eq!(got.mint, key(1));
    let got = get_reward_rate(&data, 1).unwrap();
    assert_eq!(got.reward_rate, 1005);
    assert_eq!(got.mint, key(2));
    let empty = get_reward_rate(&data, 0).unwrap();
    assert_eq!(empty.reward_rate, 0);
    assert_eq!(empty.mint, [0u8; 32]);
    assert_eq!(get_last_number(&data), Ok(0));
}

#[test]
fn slot_bounds() {
    let data = vec![0u8; ENTRIES_OFFSET + DAILY_LEDGER_SIZE * 2];
    assert!(has_slot(&data, 0));
    assert!(has_slot(&data, 1));
    assert!(!has_slot(&data, 2));
    assert!(!has_slot(&data, u64::MAX));
    let short = vec![0u8; ENTRIES_OFFSET + DAILY_LEDGER_SIZE - 1];
    assert!(!has_slot(&short, 0));
}
