use lottery_rounds::address::{derive_address, verify_derivation, Address};
use lottery_rounds::codec::{CONFIG_LEN, USER_LEN};
use lottery_rounds::digest::{count_matching_elements_until_difference, digits_of, number_from_digest, pseudo_random_number};
use lottery_rounds::error::AppError;
use lottery_rounds::lifecycle::{claim_reward, close_round, record_purchase};
use lottery_rounds::seeds::config_seed_list;
use lottery_rounds::state::{reward_amount, total_allocation, ConfigureData, RoundData, UserData, MAX_SHOTS};
use lottery_rounds::text::{parse_round, u64_text};

fn open_round(total_reward: u64, target: u64) -> ConfigureData {
    let mut c = ConfigureData::zeroed();
    c.round = 1;
    c.total_reward = total_reward;
    c.target = target;
    c.start_time = 100;
    c
}

#[test]
fn claim_reward_follows_tier_shares() {
    let mut c = open_round(1_000_000, 0);
    c.match4 = 100;
    c.closed = true;
    let mut u = UserData::zeroed();
    u.match4 = 10;
    assert_eq!(reward_amount(&c, &u), Some(20_000));
    assert_eq!(claim_reward(&c, &mut u), Ok(20_000));
    assert!(u.claimed);
    assert_eq!(u.reward, 20_000);
}

#[test]
fn claim_reward_truncates_each_tier() {
    let mut c = open_round(1_000, 0);
    c.match1 = 3;
    c.match6 = 7;
    c.closed = true;
    let mut u = UserData::zeroed();
    u.match1 = 1;
    u.match6 = 2;
    // floor(20 * 1 / 3) + floor(400 * 2 / 7) = 6 + 114
    assert_eq!(reward_amount(&c, &u), Some(120));
}

#[test]
fn claim_reward_overflow_is_refused() {
    let mut c = open_round(u64::MAX, 0);
    c.match6 = 1;
    c.closed = true;
    let mut u = UserData::zeroed();
    u.match6 = 5;
    assert_eq!(reward_amount(&c, &u), None);
    assert_eq!(claim_reward(&c, &mut u), Err(AppError::ArithmeticOverflow));
    assert!(!u.claimed);
}

#[test]
fn claim_is_at_most_once() {
    let mut c = open_round(1_000_000, 0);
    c.match2 = 4;
    c.closed = true;
    let mut u = UserData::zeroed();
    u.match2 = 1;
    assert_eq!(claim_reward(&c, &mut u), Ok(7_500));
    assert_eq!(claim_reward(&c, &mut u), Err(AppError::Claimed));
    assert_eq!(u.reward, 7_500);
}

#[test]
fn claim_requires_closed_round() {
    let c = open_round(1_000_000, 0);
    let mut u = UserData::zeroed();
    assert_eq!(claim_reward(&c, &mut u), Err(AppError::SaleNotClosed));
}

#[test]
fn allocation_sums_nonempty_tiers() {
    let mut c = open_round(1_000, 0);
    assert_eq!(total_allocation(&c), 0);
    c.match1 = 1;
    c.match4 = 2;
    assert_eq!(total_allocation(&c), 220);
    c.match2 = 1;
    c.match3 = 1;
    c.match5 = 1;
    c.match6 = 1;
    assert_eq!(total_allocation(&c), 1_000);
    let mut odd = open_round(99, 0);
    odd.match1 = 1;
    odd.match2 = 1;
    odd.match6 = 1;
    // floor(1.98) + floor(2.97) + floor(39.6)
    assert_eq!(total_allocation(&odd), 1 + 2 + 39);
}

#[test]
fn purchases_accumulate() {
    let mut c = open_round(1_000, 999_999);
    let mut u = UserData::zeroed();
    let combo = [1, 2, 3, 4, 5, 6];
    assert_eq!(record_purchase(&mut c, &mut u, combo, 3, 100), Ok(()));
    assert_eq!(record_purchase(&mut c, &mut u, combo, 3, 100), Ok(()));
    assert_eq!(u.shot_count(&combo), 6);
    assert_eq!(u.total_shots, 6);
    assert_eq!(c.total_shots, 6);
    assert_eq!(u.shots.len(), 1);
    assert_eq!(u.round, 1);
}

#[test]
fn purchases_count_tiers() {
    let mut c = open_round(1_000, 123_456);
    let mut u = UserData::zeroed();
    assert_eq!(record_purchase(&mut c, &mut u, [1, 2, 3, 9, 9, 9], 2, 100), Ok(()));
    assert_eq!(record_purchase(&mut c, &mut u, [1, 2, 3, 4, 5, 6], 1, 100), Ok(()));
    assert_eq!(record_purchase(&mut c, &mut u, [9, 2, 3, 4, 5, 6], 5, 100), Ok(()));
    assert_eq!((c.match3, c.match6, c.match1), (2, 1, 0));
    assert_eq!((u.match3, u.match6), (2, 1));
    assert_eq!(c.total_shots, 8);
}

#[test]
fn purchases_keep_combinations_ordered() {
    let mut c = open_round(1_000, 0);
    let mut u = UserData::zeroed();
    for combo in [[5, 0, 0, 0, 0, 0], [1, 0, 0, 0, 0, 0], [3, 0, 0, 0, 0, 0], [1, 0, 0, 0, 0, 0]] {
        assert_eq!(record_purchase(&mut c, &mut u, combo, 1, 100), Ok(()));
    }
    let firsts: Vec<u8> = u.shots.iter().map(|e| e.0[0]).collect();
    assert_eq!(firsts, vec![1, 3, 5]);
    assert_eq!(u.shot_count(&[1, 0, 0, 0, 0, 0]), 2);
    assert_eq!(u.shot_count(&[2, 0, 0, 0, 0, 0]), 0);
}

#[test]
fn purchase_refused_before_start_and_after_close() {
    let mut c = open_round(1_000, 0);
    let mut u = UserData::zeroed();
    assert_eq!(record_purchase(&mut c, &mut u, [0; 6], 1, 99), Err(AppError::SaleNotOpen));
    c.closed = true;
    assert_eq!(record_purchase(&mut c, &mut u, [0; 6], 1, 500), Err(AppError::SaleNotOpen));
    assert!(c.closed);
    assert_eq!(u.total_shots, 0);
}

#[test]
fn purchase_refused_when_record_is_full() {
    let mut c = open_round(1_000, 0);
    let mut u = UserData::zeroed();
    for i in 0..MAX_SHOTS {
        assert_eq!(record_purchase(&mut c, &mut u, [i as u8, 0, 0, 0, 0, 1], 1, 100), Ok(()));
    }
    assert_eq!(record_purchase(&mut c, &mut u, [99, 0, 0, 0, 0, 1], 1, 100), Err(AppError::AccountDataTooSmall));
    assert_eq!(record_purchase(&mut c, &mut u, [0, 0, 0, 0, 0, 1], 1, 100), Ok(()));
    assert_eq!(u.encode().len(), USER_LEN);
}

#[test]
fn purchase_overflow_is_refused() {
    let mut c = open_round(1_000, 0);
    c.total_shots = u64::MAX - 1;
    let mut u = UserData::zeroed();
    assert_eq!(record_purchase(&mut c, &mut u, [0; 6], 2, 100), Err(AppError::ArithmeticOverflow));
    assert_eq!(c.total_shots, u64::MAX - 1);
}

#[test]
fn close_freezes_and_opens_next() {
    let mut c = open_round(1_000, 7);
    c.match5 = 4;
    c.total_shots = 9;
    let next = close_round(&mut c, 654_321, 5_000).unwrap();
    assert!(c.closed);
    assert_eq!(c.allocated, 300);
    assert_eq!(next.round, 2);
    assert_eq!(next.target, 654_321);
    assert_eq!(next.start_time, 5_000);
    assert_eq!(next.total_reward, 1_000);
    assert_eq!((next.total_shots, next.match5, next.allocated), (0, 0, 0));
    assert!(!next.closed);
    assert_eq!(close_round(&mut c, 1, 6_000).unwrap_err(), AppError::RoundClosed);
    assert_eq!(c.allocated, 300);
}

#[test]
fn close_refuses_last_round_number() {
    let mut c = open_round(1_000, 7);
    c.round = u64::MAX;
    assert_eq!(close_round(&mut c, 1, 6_000).unwrap_err(), AppError::ArithmeticOverflow);
    assert!(!c.closed);
}

#[test]
fn config_record_round_trip() {
    let mut c = open_round(77, 123_456);
    c.authority = Address::new([9; 32]);
    c.match3 = 5;
    c.closed = true;
    let bytes = c.encode();
    assert_eq!(bytes.len(), 193);
    let mut slot = bytes.clone();
    slot.resize(CONFIG_LEN, 0xee);
    let back = ConfigureData::decode(&slot).unwrap();
    assert_eq!(back.encode(), bytes);
    assert_eq!(back.authority, Address::new([9; 32]));
    assert_eq!(back.target, 123_456);
    assert!(back.closed);
    slot[192] = 2;
    assert_eq!(ConfigureData::decode(&slot).unwrap_err(), AppError::InvalidAccountData);
    assert_eq!(ConfigureData::decode(&bytes).unwrap_err(), AppError::InvalidAccountData);
}

#[test]
fn user_record_round_trip() {
    let mut c = open_round(1_000, 0);
    let mut u = UserData::zeroed();
    record_purchase(&mut c, &mut u, [0, 0, 0, 0, 0, 9], 4, 100).unwrap();
    record_purchase(&mut c, &mut u, [0, 0, 0, 0, 0, 2], 1, 100).unwrap();
    let bytes = u.encode();
    assert_eq!(bytes.len(), 77 + 28);
    assert_eq!(&bytes[0..4], &[2, 0, 0, 0]);
    assert_eq!(&bytes[4..10], &[0, 0, 0, 0, 0, 2]);
    let mut slot = bytes.clone();
    slot.resize(USER_LEN, 0);
    let back = UserData::decode(&slot).unwrap();
    assert_eq!(back.shot_count(&[0, 0, 0, 0, 0, 9]), 4);
    assert_eq!(back.total_shots, 5);
    // combinations out of order are refused
    slot[4..10].copy_from_slice(&[0, 0, 0, 0, 0, 9]);
    assert_eq!(UserData::decode(&slot).unwrap_err(), AppError::InvalidAccountData);
    let empty = vec![0u8; USER_LEN];
    let z = UserData::decode(&empty).unwrap();
    assert_eq!(z.shots.len(), 0);
}

#[test]
fn round_record_round_trip() {
    let r = RoundData { round: 0x0102 };
    assert_eq!(r.encode(), vec![2, 1, 0, 0, 0, 0, 0, 0]);
    assert_eq!(RoundData::decode(&r.encode()).unwrap().round, 0x0102);
    assert_eq!(RoundData::decode(&[1, 2, 3]).unwrap_err(), AppError::InvalidAccountData);
}

#[test]
fn round_text_is_canonical() {
    assert_eq!(u64_text(0), b"0".to_vec());
    assert_eq!(u64_text(1), b"1".to_vec());
    assert_eq!(u64_text(18_446_744_073_709_551_615), b"18446744073709551615".to_vec());
    assert_eq!(parse_round(b"42"), Some(42));
    assert_eq!(parse_round(b"18446744073709551615"), Some(u64::MAX));
    assert_eq!(parse_round(b"18446744073709551616"), None);
    assert_eq!(parse_round(b"042"), None);
    assert_eq!(parse_round(b"+1"), None);
    assert_eq!(parse_round(b""), None);
    assert_eq!(parse_round(b"0"), Some(0));
}

#[test]
fn leading_digits_match() {
    assert_eq!(count_matching_elements_until_difference(&[1, 2, 3, 4, 5, 6], &[1, 2, 3, 4, 5, 6]), 6);
    assert_eq!(count_matching_elements_until_difference(&[1, 2, 3, 0, 5, 6], &[1, 2, 3, 4, 5, 6]), 3);
    assert_eq!(count_matching_elements_until_difference(&[0, 2, 3, 4, 5, 6], &[1, 2, 3, 4, 5, 6]), 0);
    assert_eq!(digits_of(320), [0, 0, 0, 3, 2, 0]);
    assert_eq!(digits_of(987_654), [9, 8, 7, 6, 5, 4]);
}

#[test]
fn digest_number_reads_first_sixteen_bytes() {
    let mut d = [0u8; 32];
    d[15] = 0x40;
    d[14] = 0x42;
    d[20] = 0xff;
    assert_eq!(number_from_digest(&d), 0x4240);
    let all = [0xffu8; 32];
    // (2^128 - 1) mod 1_000_000
    assert_eq!(number_from_digest(&all), 211_455);
}

#[test]
fn pseudo_random_number_is_keccak_based() {
    assert_eq!(pseudo_random_number(1_700_000_000, &Address::new([7; 32])), 271_387);
    assert_eq!(pseudo_random_number(0, &Address::new([0; 32])), 972_886);
    assert_eq!(pseudo_random_number(1_700_000_000, &Address::new([42; 32])), 320);
}

#[test]
fn derivation_round_trip() {
    let pid = Address::new([42; 32]);
    let seeds = config_seed_list(&pid, b"1");
    let (addr, bump) = derive_address(&pid, &seeds).unwrap();
    assert_eq!(verify_derivation(&pid, &seeds, &addr), Ok(bump));
    assert_eq!(verify_derivation(&pid, &seeds, &Address::new([5; 32])), Err(AppError::InvalidDerivedKey));
    let other = config_seed_list(&pid, b"2");
    assert_eq!(verify_derivation(&pid, &other, &addr), Err(AppError::InvalidDerivedKey));
    let expected = solana_program::pubkey::Pubkey::find_program_address(
        &[&[42u8; 32], b"config", b"1"],
        &solana_program::pubkey::Pubkey::new_from_array([42; 32]),
    );
    assert_eq!(addr.bytes, expected.0.to_bytes());
    assert_eq!(bump, expected.1);
}
