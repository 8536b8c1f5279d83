use lottery_rounds::account::AccountView;
use lottery_rounds::address::{derive_address, Address};
use lottery_rounds::error::AppError;
use lottery_rounds::instruction::{buy, claim, close, configure, process_instruction, AppInstruction};
use lottery_rounds::processor::{process_buy, process_claim, process_clear, process_close, process_configure, Effect};
use lottery_rounds::seeds::{config_seed_list, mint_vault_seed_list, round_seed_list, transfer_auth_seed_list, user_seed_list};
use lottery_rounds::state::{
    BuyTicketsArgs, ClaimArgs, ClearArgs, ConfigureArgs, ConfigureData, RoundData, UserData, TICKET_PRICE,
};

const NOW: u64 = 1_700_000_000;

fn pid() -> Address {
    Address::new([42; 32])
}

fn admin() -> Address {
    Address::new([1; 32])
}

fn mint() -> Address {
    Address::new([2; 32])
}

fn charge() -> Address {
    Address::new([3; 32])
}

fn derived(seeds: Vec<Vec<u8>>) -> Address {
    derive_address(&pid(), &seeds).unwrap().0
}

fn service(id: solana_program::pubkey::Pubkey) -> AccountView {
    AccountView { key: Address::new(id.to_bytes()), owner: Address::new([0; 32]), is_signer: false, data: vec![] }
}

fn plain(key: Address, is_signer: bool) -> AccountView {
    AccountView { key, owner: Address::new([0; 32]), is_signer, data: vec![] }
}

struct Ledger {
    slots: Vec<(Address, AccountView)>,
}

impl Ledger {
    fn new() -> Ledger {
        Ledger { slots: vec![] }
    }

    fn view(&self, key: Address, is_signer: bool) -> AccountView {
        for (k, v) in &self.slots {
            if *k == key {
                let mut v = v.clone();
                v.is_signer = is_signer;
                return v;
            }
        }
        plain(key, is_signer)
    }

    fn apply(&mut self, accounts: &[AccountView], effects: &[Effect]) {
        for e in effects {
            let (index, data, created) = match e {
                Effect::CreateAccount { account, size, .. } => (*account, vec![0u8; *size], true),
                Effect::Store { account, data } => (*account, data.clone(), false),
                _ => continue,
            };
            let key = accounts[index].key;
            let mut current = self.view(key, false);
            if created {
                current.data = data;
                current.owner = pid();
            } else {
                current.data[..data.len()].copy_from_slice(&data);
            }
            self.slots.retain(|(k, _)| *k != key);
            self.slots.push((key, current));
        }
    }
}

fn configure_accounts(ledger: &Ledger, round: &[u8]) -> Vec<AccountView> {
    vec![
        plain(admin(), true),
        ledger.view(derived(config_seed_list(&pid(), round)), false),
        ledger.view(derived(round_seed_list(&pid())), false),
        plain(mint(), false),
        ledger.view(derived(mint_vault_seed_list(&pid(), &mint())), false),
        ledger.view(derived(transfer_auth_seed_list(&pid(), &mint())), false),
        service(spl_token::id()),
        service(solana_program::sysvar::rent::id()),
        service(solana_program::system_program::id()),
    ]
}

fn buy_accounts(ledger: &Ledger, buyer: Address, round: &[u8]) -> Vec<AccountView> {
    vec![
        plain(buyer, true),
        ledger.view(derived(config_seed_list(&pid(), round)), false),
        ledger.view(derived(user_seed_list(&pid(), &buyer, round)), false),
        plain(charge(), false),
        service(solana_program::sysvar::rent::id()),
        service(solana_program::system_program::id()),
    ]
}

fn close_accounts(ledger: &Ledger, round: &[u8], next: &[u8]) -> Vec<AccountView> {
    vec![
        plain(admin(), true),
        ledger.view(derived(config_seed_list(&pid(), round)), false),
        ledger.view(derived(round_seed_list(&pid())), false),
        ledger.view(derived(config_seed_list(&pid(), next)), false),
        service(solana_program::sysvar::rent::id()),
        service(solana_program::system_program::id()),
    ]
}

fn claim_accounts(ledger: &Ledger, buyer: Address, round: &[u8]) -> Vec<AccountView> {
    vec![
        plain(buyer, true),
        ledger.view(derived(config_seed_list(&pid(), round)), false),
        plain(mint(), false),
        ledger.view(derived(user_seed_list(&pid(), &buyer, round)), false),
        ledger.view(derived(mint_vault_seed_list(&pid(), &mint())), false),
        ledger.view(derived(transfer_auth_seed_list(&pid(), &mint())), false),
        plain(Address::new([8; 32]), false),
        service(spl_token::id()),
        service(solana_program::sysvar::rent::id()),
        service(solana_program::system_program::id()),
    ]
}

fn configure_args(round: &str, start_time: u64) -> ConfigureArgs {
    ConfigureArgs {
        authority: admin(),
        charge_addr: charge(),
        round: round.to_string(),
        start_time,
        total_reward: 1_000_000,
    }
}

fn configured_ledger(start_time: u64) -> Ledger {
    let mut ledger = Ledger::new();
    let accounts = configure_accounts(&ledger, b"1");
    let effects = process_configure(&pid(), &accounts, configure_args("1", start_time), NOW).unwrap();
    assert_eq!(effects.len(), 5);
    ledger.apply(&accounts, &effects);
    ledger
}

fn stored_config(ledger: &Ledger, round: &[u8]) -> ConfigureData {
    let v = ledger.view(derived(config_seed_list(&pid(), round)), false);
    ConfigureData::from_account_info(&v).unwrap()
}

fn stored_counter(ledger: &Ledger) -> u64 {
    let v = ledger.view(derived(round_seed_list(&pid())), false);
    RoundData::from_account_info(&v).unwrap().round
}

#[test]
fn configure_creates_round_one() {
    let ledger = configured_ledger(NOW + 100);
    let c = stored_config(&ledger, b"1");
    assert_eq!(c.round, 1);
    assert_eq!(c.target, 320);
    assert_eq!(c.start_time, NOW + 100);
    assert_eq!(c.authority, admin());
    assert_eq!(c.token, mint());
    assert!(!c.closed);
    assert_eq!(stored_counter(&ledger), 1);
}

#[test]
fn configure_refuses_bad_round_text_and_strangers() {
    let ledger = configured_ledger(NOW);
    let accounts = configure_accounts(&ledger, b"1");
    let r = process_configure(&pid(), &accounts, configure_args("01", NOW), NOW);
    assert_eq!(r.unwrap_err(), AppError::InvalidInstructionData);
    let mut stranger = accounts.clone();
    stranger[0] = plain(Address::new([77; 32]), true);
    let r = process_configure(&pid(), &stranger, configure_args("1", NOW), NOW);
    assert_eq!(r.unwrap_err(), AppError::InvalidAuthority);
    let mut unsigned = accounts.clone();
    unsigned[0].is_signer = false;
    let r = process_configure(&pid(), &unsigned, configure_args("1", NOW), NOW);
    assert_eq!(r.unwrap_err(), AppError::MissingSignature);
    let mut bad_rent = accounts.clone();
    bad_rent[7] = plain(Address::new([5; 32]), false);
    let r = process_configure(&pid(), &bad_rent, configure_args("1", NOW), NOW);
    assert_eq!(r.unwrap_err(), AppError::RentServiceMismatch);
    let mut bad_system = accounts.clone();
    bad_system[8] = plain(Address::new([5; 32]), false);
    let r = process_configure(&pid(), &bad_system, configure_args("1", NOW), NOW);
    assert_eq!(r.unwrap_err(), AppError::SystemServiceMismatch);
    let r = process_configure(&pid(), &accounts, configure_args("2", NOW), NOW);
    assert_eq!(r.unwrap_err(), AppError::InvalidDerivedKey);
    let r = process_configure(&pid(), &accounts[..8], configure_args("1", NOW), NOW);
    assert_eq!(r.unwrap_err(), AppError::NotEnoughAccountKeys);
}

#[test]
fn sale_opens_at_start_time() {
    let mut ledger = configured_ledger(NOW + 100);
    let accounts = buy_accounts(&ledger, admin(), b"1");
    let args = BuyTicketsArgs { shot: Some([1, 2, 3, 4, 5, 6]), num: 3 };
    assert_eq!(process_buy(&pid(), &accounts, args, NOW).unwrap_err(), AppError::SaleNotOpen);
    let effects = process_buy(&pid(), &accounts, args, NOW + 100).unwrap();
    assert_eq!(effects.len(), 4);
    match &effects[1] {
        Effect::Pay { from, to, lamports } => assert_eq!((*from, *to, *lamports), (0, 3, 3 * TICKET_PRICE)),
        other => panic!("unexpected effect {:?}", other),
    }
    ledger.apply(&accounts, &effects);
    assert_eq!(stored_config(&ledger, b"1").total_shots, 3);
}

#[test]
fn buying_twice_accumulates() {
    let mut ledger = configured_ledger(NOW);
    let args = BuyTicketsArgs { shot: Some([1, 2, 3, 4, 5, 6]), num: 3 };
    for _ in 0..2 {
        let accounts = buy_accounts(&ledger, admin(), b"1");
        let effects = process_buy(&pid(), &accounts, args, NOW).unwrap();
        ledger.apply(&accounts, &effects);
    }
    let user = UserData::from_account_info(&ledger.view(derived(user_seed_list(&pid(), &admin(), b"1")), false)).unwrap();
    assert_eq!(user.shot_count(&[1, 2, 3, 4, 5, 6]), 6);
    assert_eq!(user.total_shots, 6);
    assert_eq!(stored_config(&ledger, b"1").total_shots, 6);
}

#[test]
fn buy_draws_a_combination_when_none_given() {
    let mut ledger = configured_ledger(NOW);
    let buyer = Address::new([1; 32]);
    let accounts = buy_accounts(&ledger, buyer, b"1");
    let effects = process_buy(&pid(), &accounts, BuyTicketsArgs { shot: None, num: 1 }, NOW + 100).unwrap();
    ledger.apply(&accounts, &effects);
    let user = UserData::from_account_info(&ledger.view(derived(user_seed_list(&pid(), &buyer, b"1")), false)).unwrap();
    assert_eq!(user.shot_count(&[1, 3, 0, 2, 7, 2]), 1);
}

#[test]
fn buy_refuses_wrong_charge_destination() {
    let ledger = configured_ledger(NOW);
    let mut accounts = buy_accounts(&ledger, admin(), b"1");
    accounts[3] = plain(Address::new([66; 32]), false);
    let r = process_buy(&pid(), &accounts, BuyTicketsArgs { shot: None, num: 1 }, NOW);
    assert_eq!(r.unwrap_err(), AppError::IdentityMismatch);
}

#[test]
fn round_counter_advances_once_per_close() {
    let mut ledger = configured_ledger(NOW);
    let accounts = close_accounts(&ledger, b"1", b"2");
    let effects = process_close(&pid(), &accounts, NOW + 100).unwrap();
    assert_eq!(effects.len(), 4);
    ledger.apply(&accounts, &effects);
    assert_eq!(stored_counter(&ledger), 2);
    assert!(stored_config(&ledger, b"1").closed);
    let next = stored_config(&ledger, b"2");
    assert_eq!((next.round, next.target, next.start_time), (2, 131_758, NOW + 100));
    assert!(!next.closed);
    let again = close_accounts(&ledger, b"1", b"2");
    assert_eq!(process_close(&pid(), &again, NOW + 200).unwrap_err(), AppError::RoundClosed);
    assert_eq!(stored_counter(&ledger), 2);
    let accounts = configure_accounts(&ledger, b"2");
    let effects = process_configure(&pid(), &accounts, configure_args("2", NOW + 300), NOW + 300).unwrap();
    ledger.apply(&accounts, &effects);
    assert_eq!(stored_counter(&ledger), 2);
    let closed_again = configure_accounts(&ledger, b"1");
    let r = process_configure(&pid(), &closed_again, configure_args("1", NOW), NOW);
    assert_eq!(r.unwrap_err(), AppError::RoundClosed);
}

#[test]
fn close_requires_the_administrator() {
    let ledger = configured_ledger(NOW);
    let mut accounts = close_accounts(&ledger, b"1", b"2");
    accounts[0] = plain(Address::new([77; 32]), true);
    assert_eq!(process_close(&pid(), &accounts, NOW).unwrap_err(), AppError::IdentityMismatch);
}

#[test]
fn claim_after_close_pays_tier_share_once() {
    let mut ledger = configured_ledger(NOW);
    let accounts = buy_accounts(&ledger, admin(), b"1");
    let effects = process_buy(&pid(), &accounts, BuyTicketsArgs { shot: Some([0, 0, 0, 3, 9, 9]), num: 3 }, NOW).unwrap();
    ledger.apply(&accounts, &effects);
    let claim_early = claim_accounts(&ledger, admin(), b"1");
    assert_eq!(process_claim(&pid(), &claim_early, ClaimArgs { round: 1 }).unwrap_err(), AppError::SaleNotClosed);
    let accounts = close_accounts(&ledger, b"1", b"2");
    let effects = process_close(&pid(), &accounts, NOW + 100).unwrap();
    ledger.apply(&accounts, &effects);
    assert_eq!(stored_config(&ledger, b"1").allocated, 200_000);
    let accounts = claim_accounts(&ledger, admin(), b"1");
    let effects = process_claim(&pid(), &accounts, ClaimArgs { round: 1 }).unwrap();
    match &effects[0] {
        Effect::TokenTransfer { source, destination, authority, amount, .. } => {
            assert_eq!((*source, *destination, *authority, *amount), (4, 6, 5, 200_000))
        },
        other => panic!("unexpected effect {:?}", other),
    }
    ledger.apply(&accounts, &effects);
    let again = claim_accounts(&ledger, admin(), b"1");
    assert_eq!(process_claim(&pid(), &again, ClaimArgs { round: 1 }).unwrap_err(), AppError::Claimed);
    let user = UserData::from_account_info(&again[3]).unwrap();
    assert_eq!(user.reward, 200_000);
    assert!(user.claimed);
}

#[test]
fn clear_is_for_the_administrator() {
    let ledger = configured_ledger(NOW);
    let mut accounts = claim_accounts(&ledger, admin(), b"1");
    accounts.remove(3);
    let effects = process_clear(&pid(), &accounts, ClearArgs { amt: 55 }).unwrap();
    match &effects[0] {
        Effect::TokenTransfer { amount, .. } => assert_eq!(*amount, 55),
        other => panic!("unexpected effect {:?}", other),
    }
    accounts[0] = plain(Address::new([77; 32]), true);
    assert_eq!(process_clear(&pid(), &accounts, ClearArgs { amt: 55 }).unwrap_err(), AppError::IdentityMismatch);
}

#[test]
fn requests_round_trip_through_bytes() {
    let ix = configure(
        &pid(),
        &admin(),
        &Address::new([10; 32]),
        &Address::new([11; 32]),
        &mint(),
        &Address::new([12; 32]),
        &Address::new([13; 32]),
        configure_args("17", 5),
    )
    .unwrap();
    assert_eq!(ix.accounts.len(), 9);
    assert_eq!(ix.data[0], 0);
    assert_eq!(ix.data.len(), 85 + 2);
    match AppInstruction::unpack(&ix.data).unwrap() {
        AppInstruction::Configure(a) => {
            assert_eq!(a.round, "17");
            assert_eq!(a.start_time, 5);
            assert_eq!(a.total_reward, 1_000_000);
            assert_eq!(a.charge_addr, charge());
        },
        other => panic!("unexpected request {:?}", other),
    }
    let b = buy(&pid(), &admin(), &admin(), &admin(), &charge(), BuyTicketsArgs { shot: Some([1, 2, 3, 4, 5, 6]), num: 9 }).unwrap();
    assert_eq!(b.data, vec![1, 1, 1, 2, 3, 4, 5, 6, 9, 0, 0, 0, 0, 0, 0, 0]);
    let c = close(&pid(), &admin(), &admin(), &admin(), &admin()).unwrap();
    assert_eq!(c.data, vec![2]);
    assert_eq!(c.accounts.len(), 6);
    let k = claim(&pid(), &admin(), &admin(), &admin(), &admin(), &admin(), &admin(), &admin(), ClaimArgs { round: 3 }).unwrap();
    assert_eq!(k.data, vec![3, 3, 0, 0, 0, 0, 0, 0, 0]);
    assert_eq!(k.accounts.len(), 10);
    assert!(matches!(AppInstruction::unpack(&[1, 0, 7, 0, 0, 0, 0, 0, 0, 0]).unwrap(), AppInstruction::BuyTickets(a) if a.num == 7 && a.shot.is_none()));
    assert_eq!(AppInstruction::unpack(&[]).unwrap_err(), AppError::InvalidInstructionData);
    assert_eq!(AppInstruction::unpack(&[2, 0]).unwrap_err(), AppError::InvalidInstructionData);
    assert_eq!(AppInstruction::unpack(&[5]).unwrap_err(), AppError::InvalidInstructionData);
    assert_eq!(AppInstruction::unpack(&[1, 2, 0, 0, 0, 0, 0, 0, 0, 0]).unwrap_err(), AppError::InvalidInstructionData);
}

#[test]
fn dispatch_runs_the_decoded_request() {
    let ledger = configured_ledger(NOW + 100);
    let accounts = buy_accounts(&ledger, admin(), b"1");
    let data = AppInstruction::BuyTickets(BuyTicketsArgs { shot: None, num: 1 }).pack();
    assert_eq!(process_instruction(&pid(), &accounts, &data, NOW).unwrap_err(), AppError::SaleNotOpen);
    assert!(process_instruction(&pid(), &accounts, &data, NOW + 100).is_ok());
    assert_eq!(process_instruction(&pid(), &accounts, &[9], NOW).unwrap_err(), AppError::InvalidInstructionData);
}
