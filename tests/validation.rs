use lottery_rounds::account::AccountView;
use lottery_rounds::address::Address;
use lottery_rounds::error::AppError;
use lottery_rounds::instruction::AppInstruction;
use lottery_rounds::processor::process_buy;
use lottery_rounds::state::BuyTicketsArgs;
use lottery_rounds::utils::{
    assert_eq_pubkey, assert_eq_pubkey_0, assert_eq_pubkey_1, assert_eq_pubkey_2, assert_owned_by,
    assert_rent_service, assert_signer, assert_system_service, assert_token_service,
};

fn account(key: [u8; 32], owner: [u8; 32], is_signer: bool) -> AccountView {
    AccountView { key: Address::new(key), owner: Address::new(owner), is_signer, data: vec![] }
}

const RENT: [u8; 32] = [
    6, 167, 213, 23, 25, 44, 92, 81, 33, 140, 201, 76, 61, 74, 241, 127, 88, 218, 238, 8, 155, 161, 253, 68, 227,
    219, 217, 138, 0, 0, 0, 0,
];

const TOKEN: [u8; 32] = [
    6, 221, 246, 225, 215, 101, 161, 147, 217, 203, 225, 70, 206, 235, 121, 172, 28, 180, 133, 237, 95, 91, 55, 145,
    58, 140, 245, 133, 126, 255, 0, 169,
];

#[test]
fn well_known_services_match_their_addresses() {
    assert_eq!(assert_rent_service(&account(RENT, [0; 32], false)), Ok(()));
    assert_eq!(assert_system_service(&account([0; 32], [0; 32], false)), Ok(()));
    assert_eq!(assert_token_service(&account(TOKEN, [0; 32], false)), Ok(()));
    assert_eq!(assert_rent_service(&account(TOKEN, [0; 32], false)), Err(AppError::RentServiceMismatch));
    assert_eq!(assert_system_service(&account(RENT, [0; 32], false)), Err(AppError::SystemServiceMismatch));
    assert_eq!(assert_token_service(&account(RENT, [0; 32], false)), Err(AppError::IdentityMismatch));
}

#[test]
fn identity_checks_report_their_own_error() {
    let a = account([1; 32], [2; 32], true);
    let other = Address::new([3; 32]);
    assert_eq!(assert_eq_pubkey(&a, &other), Err(AppError::IdentityMismatch));
    assert_eq!(assert_eq_pubkey_0(&a, &other), Err(AppError::RentServiceMismatch));
    assert_eq!(assert_eq_pubkey_1(&a, &other), Err(AppError::SystemServiceMismatch));
    assert_eq!(assert_eq_pubkey_2(&a, &other), Err(AppError::ServiceMismatch));
    assert_eq!(assert_eq_pubkey_2(&a, &Address::new([1; 32])), Ok(()));
    assert_eq!(assert_owned_by(&a, &other), Err(AppError::InvalidOwner));
    assert_eq!(assert_owned_by(&a, &Address::new([2; 32])), Ok(()));
    assert_eq!(assert_signer(&a), Ok(()));
    assert_eq!(assert_signer(&account([1; 32], [2; 32], false)), Err(AppError::MissingSignature));
}

#[test]
fn buy_refuses_a_foreign_configuration() {
    let accounts = vec![
        account([1; 32], [0; 32], true),
        account([2; 32], [9; 32], false),
        account([3; 32], [0; 32], false),
        account([4; 32], [0; 32], false),
        account(RENT, [0; 32], false),
        account([0; 32], [0; 32], false),
    ];
    let r = process_buy(&Address::new([42; 32]), &accounts, BuyTicketsArgs { shot: None, num: 1 }, 0);
    assert_eq!(r.unwrap_err(), AppError::InvalidOwner);
}

#[test]
fn round_text_must_be_utf8() {
    let mut data = vec![0u8];
    data.extend_from_slice(&[1; 64]);
    data.extend_from_slice(&[2, 0, 0, 0]);
    data.extend_from_slice(&[0xff, 0xfe]);
    data.extend_from_slice(&[0; 16]);
    assert_eq!(AppInstruction::unpack(&data).unwrap_err(), AppError::InvalidInstructionData);
    data[69] = b'4';
    data[70] = b'2';
    match AppInstruction::unpack(&data).unwrap() {
        AppInstruction::Configure(a) => assert_eq!(a.round, "42"),
        other => panic!("unexpected request {:?}", other),
    }
}

#[test]
fn error_codes_are_distinct() {
    let all = [
        AppError::MissingSignature,
        AppError::InvalidOwner,
        AppError::InvalidDerivedKey,
        AppError::InvalidAccountData,
        AppError::IdentityMismatch,
        AppError::RentServiceMismatch,
        AppError::SystemServiceMismatch,
        AppError::ServiceMismatch,
        AppError::NotEnoughAccountKeys,
        AppError::InvalidInstructionData,
        AppError::ArithmeticOverflow,
        AppError::AccountDataTooSmall,
        AppError::SaleNotOpen,
        AppError::SaleNotClosed,
        AppError::Claimed,
        AppError::InvalidAuthority,
        AppError::RoundClosed,
    ];
    let mut codes: Vec<u32> = all.iter().map(|e| e.code()).collect();
    codes.sort();
    codes.dedup();
    assert_eq!(codes.len(), all.len());
    assert_eq!(AppError::SaleNotOpen.reason(), "sale not open");
    assert_eq!(AppError::Claimed.reason(), "claimed");
}
