use vstd::prelude::*;
use vstd::utf8::encode_utf8;

use crate::account::AccountView;
use crate::address::{derivation_check, Address};
use crate::codec::{
    config_bytes, round_bytes, same_user, stored_config, stored_round, stored_user, user_bytes, user_layout_ok,
    CONFIG_LEN, ROUND_LEN, USER_LEN,
};
use crate::digest::{digits_of, pseudo_random, pseudo_random_number, six_digits};
use crate::error::AppError;
use crate::lifecycle::{
    claim_reward, close_round, closed_config, combo_code, is_zero_config, shot_count, next_round_config, purchase_full, purchase_overflows,
    purchase_post, record_purchase, sale_open,
};
use crate::seeds::{
    assert_config, assert_mint_vault, assert_round, assert_tranfer_authority, assert_user_info, config_seed_list,
    config_seeds, mint_vault_seed_list, mint_vault_seeds, round_seed_list, round_seeds, transfer_auth_seed_list,
    transfer_auth_seeds, user_seed_list, user_seeds, with_bump,
};
use crate::state::{
    allocated_share, allocation, claim_amount, BuyTicketsArgs, ClaimArgs, ClearArgs, ConfigureArgs,
    ConfigureData, RoundData, UserData, TICKET_PRICE,
};
use crate::text::{decimal, is_round_text, lemma_decimal_injective, parse_round, round_of_text, u64_text};
use crate::utils::{
    assert_eq_pubkey, assert_owned_by, assert_rent_service, assert_signer, assert_system_service,
    assert_token_service, rent_service, system_service, token_service,
};

verus! {

/// One change that a request asks of the ledger runtime. Slots are named by their position
/// in the request's list of references.
#[derive(Clone, Debug)]
pub enum Effect {
    /// Fund `account` for rent, allocate `size` bytes for it and assign it to the program,
    /// paid by `payer`; `seeds` sign for the derived slot.
    CreateAccount { account: usize, payer: usize, size: usize, seeds: Vec<Vec<u8>> },
    /// Create the reward vault `vault` for the asset `mint`, controlled by `authority`.
    CreateVault {
        vault: usize,
        payer: usize,
        mint: usize,
        authority: usize,
        vault_seeds: Vec<Vec<u8>>,
        authority_seeds: Vec<Vec<u8>>,
    },
    /// Move `lamports` of the native currency from `from` to `to`.
    Pay { from: usize, to: usize, lamports: u64 },
    /// Move `amount` of the reward asset from `source` to `destination`, signed by the
    /// derived `authority` with `authority_seeds`.
    TokenTransfer { source: usize, destination: usize, authority: usize, amount: u64, authority_seeds: Vec<Vec<u8>> },
    /// Write `data` at the start of `account`.
    Store { account: usize, data: Vec<u8> },
}

pub open spec fn is_create(e: Effect, account: usize, payer: usize, size: usize, seeds: Seq<Seq<u8>>) -> bool {
    match e {
        Effect::CreateAccount { account: a, payer: p, size: s, seeds: sd } => a == account && p == payer && s == size
            && sd.deep_view() == seeds,
        _ => false,
    }
}

pub open spec fn is_create_vault(
    e: Effect,
    vault: usize,
    payer: usize,
    mint: usize,
    authority: usize,
    vault_seeds: Seq<Seq<u8>>,
    authority_seeds: Seq<Seq<u8>>,
) -> bool {
    match e {
        Effect::CreateVault { vault: v, payer: p, mint: m, authority: a, vault_seeds: vs, authority_seeds: as_ } => v
            == vault && p == payer && m == mint && a == authority && vs.deep_view() == vault_seeds
            && as_.deep_view() == authority_seeds,
        _ => false,
    }
}

pub open spec fn is_pay(e: Effect, from: usize, to: usize, lamports: u64) -> bool {
    match e {
        Effect::Pay { from: f, to: t, lamports: l } => f == from && t == to && l == lamports,
        _ => false,
    }
}

pub open spec fn is_token_transfer(
    e: Effect,
    source: usize,
    destination: usize,
    authority: usize,
    amount: u64,
    seeds: Seq<Seq<u8>>,
) -> bool {
    match e {
        Effect::TokenTransfer { source: s, destination: d, authority: a, amount: m, authority_seeds: sd } => s == source
            && d == destination && a == authority && m == amount && sd.deep_view() == seeds,
        _ => false,
    }
}

pub open spec fn is_store(e: Effect, account: usize, bytes: Seq<u8>) -> bool {
    match e {
        Effect::Store { account: a, data } => a == account && data@ == bytes,
        _ => false,
    }
}

/// A slot's bytes hold a configuration record.
pub open spec fn config_decodes(d: Seq<u8>) -> bool {
    d.len() == CONFIG_LEN && d[192] <= 1
}

/// A slot's bytes hold a ticket record.
pub open spec fn user_decodes(d: Seq<u8>) -> bool {
    d.len() == USER_LEN && user_layout_ok(d)
}

/// The bump seed of a derivation that succeeded.
pub open spec fn bump_of(r: Result<u8, AppError>) -> u8 {
    match r {
        Ok(b) => b,
        Err(_) => 0,
    }
}

/// The first check of Clear that fails, if any. References: administrator, configuration,
/// reward asset, vault, transfer authority, destination, token service, rent service,
/// system service.
pub open spec fn clear_failure(program_id: Seq<u8>, accounts: Seq<AccountView>) -> Option<AppError> {
    if accounts.len() < 9 {
        Some(AppError::NotEnoughAccountKeys)
    } else if !accounts[0].is_signer {
        Some(AppError::MissingSignature)
    } else if accounts[6].key@ != token_service() {
        Some(AppError::IdentityMismatch)
    } else if accounts[7].key@ != rent_service() {
        Some(AppError::RentServiceMismatch)
    } else if accounts[8].key@ != system_service() {
        Some(AppError::SystemServiceMismatch)
    } else if accounts[1].owner@ != program_id {
        Some(AppError::InvalidOwner)
    } else if !config_decodes(accounts[1].data@) {
        Some(AppError::InvalidAccountData)
    } else if accounts[0].key@ != stored_config(accounts[1].data@).authority@ {
        Some(AppError::IdentityMismatch)
    } else if derivation_check(transfer_auth_seeds(program_id, accounts[2].key@), program_id, accounts[4].key@) is Err {
        Some(AppError::InvalidDerivedKey)
    } else {
        None
    }
}


/// What Clear returns: the first failing check, or the one transfer out of the vault.
pub open spec fn clear_outcome(
    program_id: Seq<u8>,
    accounts: Seq<AccountView>,
    args: ClearArgs,
    r: Result<Vec<Effect>, AppError>,
) -> bool {
    &&& r is Err <==> clear_failure(program_id, accounts) is Some
    &&& r matches Err(e) ==> clear_failure(program_id, accounts) == Some(e)
    &&& r matches Ok(effects) ==> {
        let auth = transfer_auth_seeds(program_id, accounts[2].key@);
        let bump = bump_of(derivation_check(auth, program_id, accounts[4].key@));
        &&& effects@.len() == 1
        &&& is_token_transfer(effects@[0], 3, 5, 4, args.amt, auth.push(seq![bump]))
    }
}

/// Clear: the administrator moves `amt` of the reward asset out of the vault.
pub fn process_clear(program_id: &Address, accounts: &[AccountView], args: ClearArgs) -> (r: Result<Vec<Effect>, AppError>)
    ensures
        clear_outcome(program_id@, accounts@, args, r),
{
    if accounts.len() < 9 {
        return Err(AppError::NotEnoughAccountKeys);
    }
    if let Err(e) = assert_signer(&accounts[0]) {
        return Err(e);
    }
    if let Err(e) = assert_token_service(&accounts[6]) {
        return Err(e);
    }
    if let Err(e) = assert_rent_service(&accounts[7]) {
        return Err(e);
    }
    if let Err(e) = assert_system_service(&accounts[8]) {
        return Err(e);
    }
    if let Err(e) = assert_owned_by(&accounts[1], program_id) {
        return Err(e);
    }
    let config = match ConfigureData::from_account_info(&accounts[1]) {
        Ok(c) => c,
        Err(e) => {
            return Err(e);
        },
    };
    if let Err(e) = assert_eq_pubkey(&accounts[0], &config.authority) {
        return Err(e);
    }
    let bump = match assert_tranfer_authority(program_id, &accounts[2], &accounts[4]) {
        Ok(b) => b,
        Err(e) => {
            return Err(e);
        },
    };
    let seeds = with_bump(transfer_auth_seed_list(program_id, &accounts[2].key), bump);
    let mut effects: Vec<Effect> = Vec::new();
    effects.push(
        Effect::TokenTransfer { source: 3, destination: 5, authority: 4, amount: args.amt, authority_seeds: seeds },
    );
    Ok(effects)
}

/// The first check of Claim that fails, if any. References: claimant, configuration of the
/// claimed round, reward asset, ticket record, vault, transfer authority, destination,
/// token service, rent service, system service.
pub open spec fn claim_failure(program_id: Seq<u8>, accounts: Seq<AccountView>, round: u64) -> Option<AppError> {
    let text = decimal(round as nat);
    if accounts.len() < 10 {
        Some(AppError::NotEnoughAccountKeys)
    } else if !accounts[0].is_signer {
        Some(AppError::MissingSignature)
    } else if accounts[7].key@ != token_service() {
        Some(AppError::IdentityMismatch)
    } else if accounts[8].key@ != rent_service() {
        Some(AppError::RentServiceMismatch)
    } else if accounts[9].key@ != system_service() {
        Some(AppError::SystemServiceMismatch)
    } else if derivation_check(user_seeds(program_id, accounts[0].key@, text), program_id, accounts[3].key@) is Err {
        Some(AppError::InvalidDerivedKey)
    } else if derivation_check(config_seeds(program_id, text), program_id, accounts[1].key@) is Err {
        Some(AppError::InvalidDerivedKey)
    } else if derivation_check(mint_vault_seeds(program_id, accounts[2].key@), program_id, accounts[4].key@) is Err {
        Some(AppError::InvalidDerivedKey)
    } else if !config_decodes(accounts[1].data@) {
        Some(AppError::InvalidAccountData)
    } else if stored_config(accounts[1].data@).token@ != accounts[2].key@ {
        Some(AppError::IdentityMismatch)
    } else if !stored_config(accounts[1].data@).closed {
        Some(AppError::SaleNotClosed)
    } else if derivation_check(transfer_auth_seeds(program_id, accounts[2].key@), program_id, accounts[5].key@) is Err {
        Some(AppError::InvalidDerivedKey)
    } else if !user_decodes(accounts[3].data@) {
        Some(AppError::InvalidAccountData)
    } else if stored_user(accounts[3].data@).claimed {
        Some(AppError::Claimed)
    } else if claim_amount(stored_config(accounts[1].data@), stored_user(accounts[3].data@)) > u64::MAX {
        Some(AppError::ArithmeticOverflow)
    } else {
        None
    }
}


/// What Claim returns: the first failing check, or the reward transfer and the settled
/// ticket record.
pub open spec fn claim_outcome(
    program_id: Seq<u8>,
    accounts: Seq<AccountView>,
    args: ClaimArgs,
    r: Result<Vec<Effect>, AppError>,
) -> bool {
    &&& r is Err <==> claim_failure(program_id, accounts, args.round) is Some
    &&& r matches Err(e) ==> claim_failure(program_id, accounts, args.round) == Some(e)
    &&& r matches Ok(effects) ==> {
        let auth = transfer_auth_seeds(program_id, accounts[2].key@);
        let bump = bump_of(derivation_check(auth, program_id, accounts[5].key@));
        let c = stored_config(accounts[1].data@);
        let u = stored_user(accounts[3].data@);
        let reward = claim_amount(c, u) as u64;
        &&& effects@.len() == 2
        &&& is_token_transfer(effects@[0], 4, 6, 5, reward, auth.push(seq![bump]))
        &&& is_store(effects@[1], 3, user_bytes(UserData { claimed: true, reward, ..u }))
    }
}

/// Claim: pays a user the reward of their tickets in a closed round, once.
pub fn process_claim(program_id: &Address, accounts: &[AccountView], args: ClaimArgs) -> (r: Result<Vec<Effect>, AppError>)
    ensures
        claim_outcome(program_id@, accounts@, args, r),
{
    if accounts.len() < 10 {
        return Err(AppError::NotEnoughAccountKeys);
    }
    if let Err(e) = assert_signer(&accounts[0]) {
        return Err(e);
    }
    if let Err(e) = assert_token_service(&accounts[7]) {
        return Err(e);
    }
    if let Err(e) = assert_rent_service(&accounts[8]) {
        return Err(e);
    }
    if let Err(e) = assert_system_service(&accounts[9]) {
        return Err(e);
    }
    let text = u64_text(args.round);
    if let Err(e) = assert_user_info(program_id, &accounts[0].key, &accounts[3], text.as_slice()) {
        return Err(e);
    }
    if let Err(e) = assert_config(program_id, &accounts[1], text.as_slice()) {
        return Err(e);
    }
    if let Err(e) = assert_mint_vault(program_id, &accounts[2], &accounts[4]) {
        return Err(e);
    }
    let config = match ConfigureData::from_account_info(&accounts[1]) {
        Ok(c) => c,
        Err(e) => {
            return Err(e);
        },
    };
    if !config.token.same(&accounts[2].key) {
        return Err(AppError::IdentityMismatch);
    }
    if !config.closed {
        return Err(AppError::SaleNotClosed);
    }
    let bump = match assert_tranfer_authority(program_id, &accounts[2], &accounts[5]) {
        Ok(b) => b,
        Err(e) => {
            return Err(e);
        },
    };
    let mut user = match UserData::from_account_info(&accounts[3]) {
        Ok(u) => u,
        Err(e) => {
            return Err(e);
        },
    };
    let reward = match claim_reward(&config, &mut user) {
        Ok(v) => v,
        Err(e) => {
            return Err(e);
        },
    };
    let data = user.encode();
    proof {
        let u = stored_user(accounts@[3].data@);
        assert(user_bytes(user) == user_bytes(UserData { claimed: true, reward, ..u }));
    }
    let seeds = with_bump(transfer_auth_seed_list(program_id, &accounts[2].key), bump);
    let mut effects: Vec<Effect> = Vec::new();
    effects.push(
        Effect::TokenTransfer { source: 4, destination: 6, authority: 5, amount: reward, authority_seeds: seeds },
    );
    effects.push(Effect::Store { account: 3, data });
    Ok(effects)
}

/// A ticket record with nothing in it.
pub open spec fn is_empty_user(u: UserData) -> bool {
    &&& u.shots@.len() == 0
    &&& u.total_shots == 0 && u.round == 0 && u.reward == 0 && !u.claimed
    &&& u.match1 == 0 && u.match2 == 0 && u.match3 == 0
    &&& u.match4 == 0 && u.match5 == 0 && u.match6 == 0
}

/// The ticket record that a slot's bytes give: an empty one for a slot not yet allocated.
pub open spec fn loaded_user(d: Seq<u8>) -> UserData {
    if d.len() == 0 {
        choose|u: UserData| is_empty_user(u)
    } else {
        stored_user(d)
    }
}

/// The combination bought: the one given, or the one drawn from the time and the buyer.
pub open spec fn chosen_combo(shot: Option<[u8; 6]>, now: u64, buyer: Seq<u8>) -> Seq<u8> {
    match shot {
        Some(c) => c@,
        None => six_digits(pseudo_random(now, buyer)),
    }
}

/// The first check of BuyTickets that fails, if any. References: buyer, configuration,
/// ticket record, charge destination, rent service, system service.
pub open spec fn buy_failure(
    program_id: Seq<u8>,
    accounts: Seq<AccountView>,
    shot: Option<[u8; 6]>,
    num: u64,
    now: u64,
) -> Option<AppError> {
    let c = stored_config(accounts[1].data@);
    let u = loaded_user(accounts[2].data@);
    let combo = chosen_combo(shot, now, accounts[0].key@);
    if accounts.len() < 6 {
        Some(AppError::NotEnoughAccountKeys)
    } else if !accounts[0].is_signer {
        Some(AppError::MissingSignature)
    } else if accounts[4].key@ != rent_service() {
        Some(AppError::RentServiceMismatch)
    } else if accounts[5].key@ != system_service() {
        Some(AppError::SystemServiceMismatch)
    } else if accounts[1].owner@ != program_id {
        Some(AppError::InvalidOwner)
    } else if !config_decodes(accounts[1].data@) {
        Some(AppError::InvalidAccountData)
    } else if !sale_open(c, now) {
        Some(AppError::SaleNotOpen)
    } else if accounts[3].key@ != c.charge_addr@ {
        Some(AppError::IdentityMismatch)
    } else if derivation_check(
        user_seeds(program_id, accounts[0].key@, decimal(c.round as nat)),
        program_id,
        accounts[2].key@,
    ) is Err {
        Some(AppError::InvalidDerivedKey)
    } else if accounts[2].data@.len() != 0 && !user_decodes(accounts[2].data@) {
        Some(AppError::InvalidAccountData)
    } else if TICKET_PRICE * num > u64::MAX {
        Some(AppError::ArithmeticOverflow)
    } else if purchase_overflows(c, u, combo, num) {
        Some(AppError::ArithmeticOverflow)
    } else if purchase_full(u, combo) {
        Some(AppError::AccountDataTooSmall)
    } else {
        None
    }
}


/// What BuyTickets returns: the first failing check, or the optional allocation of the
/// ticket record, the payment and the two updated records.
pub open spec fn buy_outcome(
    program_id: Seq<u8>,
    accounts: Seq<AccountView>,
    args: BuyTicketsArgs,
    now: u64,
    r: Result<Vec<Effect>, AppError>,
) -> bool {
    &&& r is Err <==> buy_failure(program_id, accounts, args.shot, args.num, now) is Some
    &&& r matches Err(e) ==> buy_failure(program_id, accounts, args.shot, args.num, now) == Some(e)
    &&& r matches Ok(effects) ==> {
        let c = stored_config(accounts[1].data@);
        let u = loaded_user(accounts[2].data@);
        let combo = chosen_combo(args.shot, now, accounts[0].key@);
        let seeds = user_seeds(program_id, accounts[0].key@, decimal(c.round as nat));
        let bump = bump_of(derivation_check(seeds, program_id, accounts[2].key@));
        let k: int = if accounts[2].data@.len() == 0 { 1 } else { 0 };
        &&& effects@.len() == k + 3
        &&& k == 1 ==> is_create(effects@[0], 2, 0, USER_LEN, seeds.push(seq![bump]))
        &&& is_pay(effects@[k], 0, 3, (TICKET_PRICE * args.num) as u64)
        &&& exists|c1: ConfigureData, u1: UserData|
            {
                &&& purchase_post(c, u, c1, u1, combo, args.num)
                &&& is_store(#[trigger] effects@[k + 1], 2, user_bytes(u1))
                &&& is_store(effects@[k + 2], 1, config_bytes(c1))
            }
    }
}

/// BuyTickets: records `args.num` tickets on a combination for the signer, who pays
/// `args.num` times the ticket price to the round's charge destination. The ticket record is
/// allocated on the first purchase of the round.
pub fn process_buy(program_id: &Address, accounts: &[AccountView], args: BuyTicketsArgs, now: u64) -> (r: Result<
    Vec<Effect>,
    AppError,
>)
    ensures
        buy_outcome(program_id@, accounts@, args, now, r),
{
    if accounts.len() < 6 {
        return Err(AppError::NotEnoughAccountKeys);
    }
    if let Err(e) = assert_signer(&accounts[0]) {
        return Err(e);
    }
    if let Err(e) = assert_rent_service(&accounts[4]) {
        return Err(e);
    }
    if let Err(e) = assert_system_service(&accounts[5]) {
        return Err(e);
    }
    if let Err(e) = assert_owned_by(&accounts[1], program_id) {
        return Err(e);
    }
    let mut config = match ConfigureData::from_account_info(&accounts[1]) {
        Ok(c) => c,
        Err(e) => {
            return Err(e);
        },
    };
    if config.start_time > now || config.closed {
        return Err(AppError::SaleNotOpen);
    }
    if let Err(e) = assert_eq_pubkey(&accounts[3], &config.charge_addr) {
        return Err(e);
    }
    let text = u64_text(config.round);
    let bump = match assert_user_info(program_id, &accounts[0].key, &accounts[2], text.as_slice()) {
        Ok(b) => b,
        Err(e) => {
            return Err(e);
        },
    };
    let mut effects: Vec<Effect> = Vec::new();
    let fresh = accounts[2].data.len() == 0;
    let mut user = if fresh {
        let seeds = with_bump(user_seed_list(program_id, &accounts[0].key, text.as_slice()), bump);
        effects.push(Effect::CreateAccount { account: 2, payer: 0, size: USER_LEN, seeds });
        let u = UserData::zeroed();
        proof {
            assert(is_empty_user(u));
            let l = loaded_user(accounts@[2].data@);
            assert(is_empty_user(l));
            assert(u.shots@ =~= l.shots@);
            assert(same_user(u, l));
        }
        u
    } else {
        match UserData::from_account_info(&accounts[2]) {
            Ok(u) => u,
            Err(e) => {
                return Err(e);
            },
        }
    };
    let ghost c0 = config;
    let ghost u0 = user;
    assert(same_user(u0, loaded_user(accounts@[2].data@)));
    if args.num > u64::MAX / TICKET_PRICE {
        return Err(AppError::ArithmeticOverflow);
    }
    let payment = TICKET_PRICE * args.num;
    let combo = match args.shot {
        Some(c) => c,
        None => digits_of(pseudo_random_number(now, &accounts[0].key)),
    };
    proof {
        let l = loaded_user(accounts@[2].data@);
        assert(combo@ == chosen_combo(args.shot, now, accounts@[0].key@));
        assert(c0 == stored_config(accounts@[1].data@));
        assert(purchase_overflows(c0, u0, combo@, args.num) == purchase_overflows(c0, l, combo@, args.num));
        assert(purchase_full(u0, combo@) == purchase_full(l, combo@));
        assert(TICKET_PRICE * args.num <= u64::MAX);
    }
    if let Err(e) = record_purchase(&mut config, &mut user, combo, args.num, now) {
        return Err(e);
    }
    effects.push(Effect::Pay { from: 0, to: 3, lamports: payment });
    let user_data = user.encode();
    let config_data = config.encode();
    effects.push(Effect::Store { account: 2, data: user_data });
    effects.push(Effect::Store { account: 1, data: config_data });
    proof {
        let k: int = if fresh { 1 } else { 0 };
        assert(purchase_post(c0, loaded_user(accounts@[2].data@), config, user, combo@, args.num));
        assert(is_store(effects@[k + 1], 2, user_bytes(user)));
    }
    Ok(effects)
}

/// The first check of CloseRound that fails, if any. References: administrator, current
/// configuration, round counter, next configuration, rent service, system service.
pub open spec fn close_failure(program_id: Seq<u8>, accounts: Seq<AccountView>) -> Option<AppError> {
    let c = stored_config(accounts[1].data@);
    if accounts.len() < 6 {
        Some(AppError::NotEnoughAccountKeys)
    } else if !accounts[0].is_signer {
        Some(AppError::MissingSignature)
    } else if accounts[4].key@ != rent_service() {
        Some(AppError::RentServiceMismatch)
    } else if accounts[5].key@ != system_service() {
        Some(AppError::SystemServiceMismatch)
    } else if accounts[1].owner@ != program_id {
        Some(AppError::InvalidOwner)
    } else if !config_decodes(accounts[1].data@) {
        Some(AppError::InvalidAccountData)
    } else if accounts[0].key@ != c.authority@ {
        Some(AppError::IdentityMismatch)
    } else if derivation_check(round_seeds(program_id), program_id, accounts[2].key@) is Err {
        Some(AppError::InvalidDerivedKey)
    } else if accounts[2].data@.len() != ROUND_LEN {
        Some(AppError::InvalidAccountData)
    } else if c.closed {
        Some(AppError::RoundClosed)
    } else if c.round == u64::MAX || stored_round(accounts[2].data@).round == u64::MAX {
        Some(AppError::ArithmeticOverflow)
    } else if derivation_check(
        config_seeds(program_id, decimal(c.round as nat + 1)),
        program_id,
        accounts[3].key@,
    ) is Err {
        Some(AppError::InvalidDerivedKey)
    } else if accounts[3].data@.len() != 0 && !config_decodes(accounts[3].data@) {
        Some(AppError::InvalidAccountData)
    } else if accounts[3].data@.len() != 0 && stored_config(accounts[3].data@).closed {
        Some(AppError::RoundClosed)
    } else {
        None
    }
}


/// What CloseRound returns: the first failing check, or the optional allocation of the next
/// configuration and the three updated records.
pub open spec fn close_outcome(
    program_id: Seq<u8>,
    accounts: Seq<AccountView>,
    now: u64,
    r: Result<Vec<Effect>, AppError>,
) -> bool {
    &&& r is Err <==> close_failure(program_id, accounts) is Some
    &&& r matches Err(e) ==> close_failure(program_id, accounts) == Some(e)
    &&& r matches Ok(effects) ==> {
        let c = stored_config(accounts[1].data@);
        let seeds = config_seeds(program_id, decimal(c.round as nat + 1));
        let bump = bump_of(derivation_check(seeds, program_id, accounts[3].key@));
        let target = pseudo_random(now, program_id) as u64;
        let k: int = if accounts[3].data@.len() == 0 { 1 } else { 0 };
        &&& effects@.len() == k + 3
        &&& k == 1 ==> is_create(effects@[0], 3, 0, CONFIG_LEN, seeds.push(seq![bump]))
        &&& is_store(effects@[k], 1, config_bytes(closed_config(c)))
        &&& is_store(effects@[k + 1], 3, config_bytes(next_round_config(c, target, now)))
        &&& is_store(
            effects@[k + 2],
            2,
            round_bytes(RoundData { round: (stored_round(accounts[2].data@).round + 1) as u64 }),
        )
    }
}

/// CloseRound: the administrator closes the round, freezing its allocation, opens the next
/// round at once (new target, starting now, same administrator, reward and charge
/// destination) and advances the round counter by one.
pub fn process_close(program_id: &Address, accounts: &[AccountView], now: u64) -> (r: Result<Vec<Effect>, AppError>)
    ensures
        close_outcome(program_id@, accounts@, now, r),
{
    if accounts.len() < 6 {
        return Err(AppError::NotEnoughAccountKeys);
    }
    if let Err(e) = assert_signer(&accounts[0]) {
        return Err(e);
    }
    if let Err(e) = assert_rent_service(&accounts[4]) {
        return Err(e);
    }
    if let Err(e) = assert_system_service(&accounts[5]) {
        return Err(e);
    }
    if let Err(e) = assert_owned_by(&accounts[1], program_id) {
        return Err(e);
    }
    let mut config = match ConfigureData::from_account_info(&accounts[1]) {
        Ok(c) => c,
        Err(e) => {
            return Err(e);
        },
    };
    if let Err(e) = assert_eq_pubkey(&accounts[0], &config.authority) {
        return Err(e);
    }
    if let Err(e) = assert_round(program_id, &accounts[2]) {
        return Err(e);
    }
    let counter = match RoundData::from_account_info(&accounts[2]) {
        Ok(c) => c,
        Err(e) => {
            return Err(e);
        },
    };
    let target = pseudo_random_number(now, program_id);
    let next = match close_round(&mut config, target, now) {
        Ok(n) => n,
        Err(e) => {
            return Err(e);
        },
    };
    if counter.round == u64::MAX {
        return Err(AppError::ArithmeticOverflow);
    }
    let text = u64_text(next.round);
    let bump = match assert_config(program_id, &accounts[3], text.as_slice()) {
        Ok(b) => b,
        Err(e) => {
            return Err(e);
        },
    };
    if accounts[3].data.len() != 0 {
        match ConfigureData::from_account_info(&accounts[3]) {
            Ok(existing) => {
                if existing.closed {
                    return Err(AppError::RoundClosed);
                }
            },
            Err(e) => {
                return Err(e);
            },
        }
    }
    let mut effects: Vec<Effect> = Vec::new();
    if accounts[3].data.len() == 0 {
        let seeds = with_bump(config_seed_list(program_id, text.as_slice()), bump);
        effects.push(Effect::CreateAccount { account: 3, payer: 0, size: CONFIG_LEN, seeds });
    }
    effects.push(Effect::Store { account: 1, data: config.encode() });
    effects.push(Effect::Store { account: 3, data: next.encode() });
    let advanced = RoundData { round: counter.round + 1 };
    effects.push(Effect::Store { account: 2, data: advanced.encode() });
    Ok(effects)
}

/// The configuration record after Configure: the given parameters over what the slot held.
pub open spec fn configured(
    c: ConfigureData,
    authority: Address,
    charge_addr: Address,
    round: u64,
    start_time: u64,
    total_reward: u64,
    token: Address,
    target: u64,
) -> ConfigureData {
    ConfigureData { authority, charge_addr, token, round, total_reward, target, start_time, ..c }
}

/// The configuration record that a slot's bytes give: an all-zero one for a slot not yet
/// allocated.
pub open spec fn loaded_config(d: Seq<u8>) -> ConfigureData {
    if d.len() == 0 {
        choose|c: ConfigureData| is_zero_config(c)
    } else {
        stored_config(d)
    }
}

/// The bytes of the round text of Configure.
pub open spec fn text_bytes(s: String) -> Seq<u8> {
    encode_utf8(s@)
}

/// The first check of Configure that fails, if any. References: administrator,
/// configuration, round counter, reward asset, vault, transfer authority, token service,
/// rent service, system service.
pub open spec fn configure_failure(program_id: Seq<u8>, accounts: Seq<AccountView>, round: Seq<u8>) -> Option<AppError> {
    let c = stored_config(accounts[1].data@);
    let fresh = accounts[1].data@.len() == 0;
    if accounts.len() < 9 {
        Some(AppError::NotEnoughAccountKeys)
    } else if accounts[7].key@ != rent_service() {
        Some(AppError::RentServiceMismatch)
    } else if accounts[8].key@ != system_service() {
        Some(AppError::SystemServiceMismatch)
    } else if accounts[6].key@ != token_service() {
        Some(AppError::IdentityMismatch)
    } else if !accounts[0].is_signer {
        Some(AppError::MissingSignature)
    } else if !is_round_text(round) {
        Some(AppError::InvalidInstructionData)
    } else if derivation_check(config_seeds(program_id, round), program_id, accounts[1].key@) is Err {
        Some(AppError::InvalidDerivedKey)
    } else if derivation_check(round_seeds(program_id), program_id, accounts[2].key@) is Err {
        Some(AppError::InvalidDerivedKey)
    } else if derivation_check(mint_vault_seeds(program_id, accounts[3].key@), program_id, accounts[4].key@) is Err {
        Some(AppError::InvalidDerivedKey)
    } else if derivation_check(transfer_auth_seeds(program_id, accounts[3].key@), program_id, accounts[5].key@)
        is Err {
        Some(AppError::InvalidDerivedKey)
    } else if accounts[2].data@.len() != 0 && accounts[2].data@.len() != ROUND_LEN {
        Some(AppError::InvalidAccountData)
    } else if !fresh && !config_decodes(accounts[1].data@) {
        Some(AppError::InvalidAccountData)
    } else if !fresh && accounts[0].key@ != c.authority@ {
        Some(AppError::InvalidAuthority)
    } else if !fresh && accounts[1].owner@ != program_id {
        Some(AppError::InvalidOwner)
    } else if !fresh && c.closed {
        Some(AppError::RoundClosed)
    } else {
        None
    }
}


/// What Configure returns: the first failing check, or the allocations that a new round
/// needs and the two written records.
pub open spec fn configure_outcome(
    program_id: Seq<u8>,
    accounts: Seq<AccountView>,
    args: ConfigureArgs,
    now: u64,
    r: Result<Vec<Effect>, AppError>,
) -> bool {
    &&& r is Err <==> configure_failure(program_id, accounts, text_bytes(args.round)) is Some
    &&& r matches Err(e) ==> configure_failure(program_id, accounts, text_bytes(args.round)) == Some(e)
    &&& r matches Ok(effects) ==> {
        let text = text_bytes(args.round);
        let n = round_of_text(text);
        let pid = program_id;
        let asset = accounts[3].key@;
        let cs = config_seeds(pid, text);
        let vs = mint_vault_seeds(pid, asset);
        let ts = transfer_auth_seeds(pid, asset);
        let rs = round_seeds(pid);
        let k1: int = if accounts[1].data@.len() == 0 { 2 } else { 0 };
        let k2: int = if accounts[2].data@.len() == 0 { 1 } else { 0 };
        let target = pseudo_random(now, pid) as u64;
        let c1 = configured(
            loaded_config(accounts[1].data@),
            args.authority,
            args.charge_addr,
            n,
            args.start_time,
            args.total_reward,
            accounts[3].key,
            target,
        );
        &&& effects@.len() == k1 + k2 + 2
        &&& k1 == 2 ==> is_create(
            effects@[0],
            1,
            0,
            CONFIG_LEN,
            cs.push(seq![bump_of(derivation_check(cs, pid, accounts[1].key@))]),
        )
        &&& k1 == 2 ==> is_create_vault(
            effects@[1],
            4,
            0,
            3,
            5,
            vs.push(seq![bump_of(derivation_check(vs, pid, accounts[4].key@))]),
            ts.push(seq![bump_of(derivation_check(ts, pid, accounts[5].key@))]),
        )
        &&& k2 == 1 ==> is_create(
            effects@[k1],
            2,
            0,
            ROUND_LEN,
            rs.push(seq![bump_of(derivation_check(rs, pid, accounts[2].key@))]),
        )
        &&& is_store(effects@[k1 + k2], 1, config_bytes(c1))
        &&& is_store(effects@[k1 + k2 + 1], 2, round_bytes(RoundData { round: n }))
    }
}

/// Configure: creates or re-parameterises the configuration of a round (with, for a new
/// slot, the reward vault of the asset), draws the round's target from the time and the
/// program identity, and sets the round counter to the round.
pub fn process_configure(program_id: &Address, accounts: &[AccountView], args: ConfigureArgs, now: u64) -> (r: Result<
    Vec<Effect>,
    AppError,
>)
    ensures
        configure_outcome(program_id@, accounts@, args, now, r),
{
    if accounts.len() < 9 {
        return Err(AppError::NotEnoughAccountKeys);
    }
    if let Err(e) = assert_rent_service(&accounts[7]) {
        return Err(e);
    }
    if let Err(e) = assert_system_service(&accounts[8]) {
        return Err(e);
    }
    if let Err(e) = assert_token_service(&accounts[6]) {
        return Err(e);
    }
    if let Err(e) = assert_signer(&accounts[0]) {
        return Err(e);
    }
    let text = args.round.as_str().as_bytes();
    let n = match parse_round(text) {
        Some(n) => n,
        None => {
            return Err(AppError::InvalidInstructionData);
        },
    };
    proof {
        lemma_decimal_injective(n as nat, round_of_text(text@) as nat);
    }
    let bump = match assert_config(program_id, &accounts[1], text) {
        Ok(b) => b,
        Err(e) => {
            return Err(e);
        },
    };
    let round_bump = match assert_round(program_id, &accounts[2]) {
        Ok(b) => b,
        Err(e) => {
            return Err(e);
        },
    };
    let vault_bump = match assert_mint_vault(program_id, &accounts[3], &accounts[4]) {
        Ok(b) => b,
        Err(e) => {
            return Err(e);
        },
    };
    let auth_bump = match assert_tranfer_authority(program_id, &accounts[3], &accounts[5]) {
        Ok(b) => b,
        Err(e) => {
            return Err(e);
        },
    };
    let fresh_config = accounts[1].data.len() == 0;
    let fresh_round = accounts[2].data.len() == 0;
    if !fresh_round && accounts[2].data.len() != ROUND_LEN {
        return Err(AppError::InvalidAccountData);
    }
    let config = if fresh_config {
        let c = ConfigureData::zeroed();
        proof {
            let l = loaded_config(accounts@[1].data@);
            assert(is_zero_config(l));
            assert(config_bytes(configured(c, args.authority, args.charge_addr, n, args.start_time, args.total_reward, accounts@[3].key, 0)) =~= config_bytes(configured(l, args.authority, args.charge_addr, n, args.start_time, args.total_reward, accounts@[3].key, 0)));
        }
        c
    } else {
        let c = match ConfigureData::from_account_info(&accounts[1]) {
            Ok(c) => c,
            Err(e) => {
                return Err(e);
            },
        };
        if !accounts[0].key.same(&c.authority) {
            return Err(AppError::InvalidAuthority);
        }
        if let Err(e) = assert_owned_by(&accounts[1], program_id) {
            return Err(e);
        }
        if c.closed {
            return Err(AppError::RoundClosed);
        }
        c
    };
    let mut effects: Vec<Effect> = Vec::new();
    if fresh_config {
        let seeds = with_bump(config_seed_list(program_id, text), bump);
        effects.push(Effect::CreateAccount { account: 1, payer: 0, size: CONFIG_LEN, seeds });
        let vault_seeds = with_bump(mint_vault_seed_list(program_id, &accounts[3].key), vault_bump);
        let authority_seeds = with_bump(transfer_auth_seed_list(program_id, &accounts[3].key), auth_bump);
        effects.push(Effect::CreateVault { vault: 4, payer: 0, mint: 3, authority: 5, vault_seeds, authority_seeds });
    }
    if fresh_round {
        let seeds = with_bump(round_seed_list(program_id), round_bump);
        effects.push(Effect::CreateAccount { account: 2, payer: 0, size: ROUND_LEN, seeds });
    }
    let target = pseudo_random_number(now, program_id);
    let updated = ConfigureData {
        authority: args.authority,
        charge_addr: args.charge_addr,
        token: accounts[3].key,
        round: n,
        total_reward: args.total_reward,
        target,
        start_time: args.start_time,
        ..config
    };
    proof {
        let l = loaded_config(accounts@[1].data@);
        assert(config_bytes(updated) =~= config_bytes(configured(l, args.authority, args.charge_addr, n, args.start_time, args.total_reward, accounts@[3].key, target)));
    }
    effects.push(Effect::Store { account: 1, data: updated.encode() });
    let counter = RoundData { round: n };
    effects.push(Effect::Store { account: 2, data: counter.encode() });
    Ok(effects)
}

/// A closed round stays closed: Configure, BuyTickets and CloseRound on a closed round's
/// configuration are all refused, so none of them writes it.
pub proof fn lemma_closed_round_stays_closed(
    program_id: Seq<u8>,
    accounts: Seq<AccountView>,
    configure_args: ConfigureArgs,
    buy_args: BuyTicketsArgs,
    now: u64,
    configure_result: Result<Vec<Effect>, AppError>,
    buy_result: Result<Vec<Effect>, AppError>,
    close_result: Result<Vec<Effect>, AppError>,
)
    requires
        accounts.len() >= 2,
        config_decodes(accounts[1].data@),
        stored_config(accounts[1].data@).closed,
        configure_outcome(program_id, accounts, configure_args, now, configure_result),
        buy_outcome(program_id, accounts, buy_args, now, buy_result),
        close_outcome(program_id, accounts, now, close_result),
    ensures
        configure_result is Err,
        buy_result is Err,
        close_result is Err,
{
}

/// CloseRound never reopens a closed round: where the next round's configuration is
/// already closed, it is refused.
pub proof fn lemma_close_never_reopens(
    program_id: Seq<u8>,
    accounts: Seq<AccountView>,
    now: u64,
    close_result: Result<Vec<Effect>, AppError>,
)
    requires
        accounts.len() >= 4,
        config_decodes(accounts[3].data@),
        stored_config(accounts[3].data@).closed,
        close_outcome(program_id, accounts, now, close_result),
    ensures
        close_result is Err,
{
}

/// BuyTickets on a closed round is refused as "sale not open", with no effect, once the
/// request's signer, services and configuration record are in order.
pub proof fn lemma_buy_refused_after_close(
    program_id: Seq<u8>,
    accounts: Seq<AccountView>,
    args: BuyTicketsArgs,
    now: u64,
    r: Result<Vec<Effect>, AppError>,
)
    requires
        accounts.len() >= 6,
        accounts[0].is_signer,
        accounts[4].key@ == rent_service(),
        accounts[5].key@ == system_service(),
        accounts[1].owner@ == program_id,
        config_decodes(accounts[1].data@),
        stored_config(accounts[1].data@).closed,
        buy_outcome(program_id, accounts, args, now, r),
    ensures
        r == Err::<Vec<Effect>, AppError>(AppError::SaleNotOpen),
{
}

/// A purchase that passes every check succeeds, adds `num` to the combination's count and
/// to the user's and the round's totals, and sets the record's round to the round's.
pub proof fn lemma_buy_accumulates(
    program_id: Seq<u8>,
    accounts: Seq<AccountView>,
    args: BuyTicketsArgs,
    now: u64,
    r: Result<Vec<Effect>, AppError>,
)
    requires
        buy_failure(program_id, accounts, args.shot, args.num, now) is None,
        buy_outcome(program_id, accounts, args, now, r),
    ensures
        r matches Ok(effects) && {
            let c = stored_config(accounts[1].data@);
            let u = loaded_user(accounts[2].data@);
            let key = combo_code(chosen_combo(args.shot, now, accounts[0].key@));
            let k: int = if accounts[2].data@.len() == 0 { 1 } else { 0 };
            exists|c1: ConfigureData, u1: UserData|
                {
                    &&& is_store(#[trigger] effects@[k + 1], 2, user_bytes(u1))
                    &&& is_store(effects@[k + 2], 1, config_bytes(c1))
                    &&& shot_count(u1.shots@, key) == shot_count(u.shots@, key) + args.num
                    &&& u1.total_shots == u.total_shots + args.num
                    &&& c1.total_shots == c.total_shots + args.num
                    &&& u1.round == c.round
                }
        },
{
    if let Ok(effects) = r {
        let c = stored_config(accounts[1].data@);
        let u = loaded_user(accounts[2].data@);
        let combo = chosen_combo(args.shot, now, accounts[0].key@);
        let k: int = if accounts[2].data@.len() == 0 { 1 } else { 0 };
        let (c1, u1) = choose|c1: ConfigureData, u1: UserData|
            {
                &&& purchase_post(c, u, c1, u1, combo, args.num)
                &&& is_store(#[trigger] effects@[k + 1], 2, user_bytes(u1))
                &&& is_store(effects@[k + 2], 1, config_bytes(c1))
            };
        assert(shot_count(u1.shots@, combo_code(combo)) == shot_count(u.shots@, combo_code(combo)) + args.num);
    }
}

/// CloseRound, once every check passes, succeeds and stores the closed round with
/// `allocated` equal to the sum of the shares of the tiers that have tickets.
pub proof fn lemma_close_allocates(
    program_id: Seq<u8>,
    accounts: Seq<AccountView>,
    now: u64,
    r: Result<Vec<Effect>, AppError>,
)
    requires
        close_failure(program_id, accounts) is None,
        close_outcome(program_id, accounts, now, r),
    ensures
        r matches Ok(effects) && {
            let c = stored_config(accounts[1].data@);
            let k: int = if accounts[3].data@.len() == 0 { 1 } else { 0 };
            &&& is_store(effects@[k], 1, config_bytes(closed_config(c)))
            &&& closed_config(c).closed
            &&& closed_config(c).allocated == allocation(c)
            &&& allocation(c) <= c.total_reward
        },
{
    let c = stored_config(accounts[1].data@);
    assert(allocation(c) <= c.total_reward) by {
        assert(allocated_share(c, 1) * 100 <= c.total_reward * 2);
        assert(allocated_share(c, 2) * 100 <= c.total_reward * 3);
        assert(allocated_share(c, 3) * 100 <= c.total_reward * 5);
        assert(allocated_share(c, 4) * 100 <= c.total_reward * 20);
        assert(allocated_share(c, 5) * 100 <= c.total_reward * 30);
        assert(allocated_share(c, 6) * 100 <= c.total_reward * 40);
    }
}

/// Claim on a record already claimed is refused as "claimed", with no effect, once the
/// request's references are in order and the round is closed.
pub proof fn lemma_claim_refused_when_claimed(
    program_id: Seq<u8>,
    accounts: Seq<AccountView>,
    args: ClaimArgs,
    r: Result<Vec<Effect>, AppError>,
)
    requires
        claim_checks_pass(program_id, accounts, args.round),
        stored_user(accounts[3].data@).claimed,
        claim_outcome(program_id, accounts, args, r),
    ensures
        r == Err::<Vec<Effect>, AppError>(AppError::Claimed),
{
}

/// Claim on an unclaimed record of a closed round pays the per-tier floor sum and stores
/// the record as claimed with that reward.
pub proof fn lemma_claim_pays_reward(
    program_id: Seq<u8>,
    accounts: Seq<AccountView>,
    args: ClaimArgs,
    r: Result<Vec<Effect>, AppError>,
)
    requires
        claim_checks_pass(program_id, accounts, args.round),
        !stored_user(accounts[3].data@).claimed,
        claim_amount(stored_config(accounts[1].data@), stored_user(accounts[3].data@)) <= u64::MAX,
        claim_outcome(program_id, accounts, args, r),
    ensures
        r matches Ok(effects) && {
            let c = stored_config(accounts[1].data@);
            let u = stored_user(accounts[3].data@);
            let reward = claim_amount(c, u) as u64;
            &&& effects@[0] matches Effect::TokenTransfer { amount, .. } && amount == reward
            &&& is_store(effects@[1], 3, user_bytes(UserData { claimed: true, reward, ..u }))
        },
{
}

/// Every check of Claim before the claimed flag and the reward's size passes: signer,
/// services, the derived slots of the round and the asset, a closed round of that asset,
/// and a well-formed ticket record.
pub open spec fn claim_checks_pass(program_id: Seq<u8>, accounts: Seq<AccountView>, round: u64) -> bool {
    let text = decimal(round as nat);
    &&& accounts.len() >= 10
    &&& accounts[0].is_signer
    &&& accounts[7].key@ == token_service()
    &&& accounts[8].key@ == rent_service()
    &&& accounts[9].key@ == system_service()
    &&& derivation_check(user_seeds(program_id, accounts[0].key@, text), program_id, accounts[3].key@) is Ok
    &&& derivation_check(config_seeds(program_id, text), program_id, accounts[1].key@) is Ok
    &&& derivation_check(mint_vault_seeds(program_id, accounts[2].key@), program_id, accounts[4].key@) is Ok
    &&& config_decodes(accounts[1].data@)
    &&& stored_config(accounts[1].data@).token@ == accounts[2].key@
    &&& stored_config(accounts[1].data@).closed
    &&& derivation_check(transfer_auth_seeds(program_id, accounts[2].key@), program_id, accounts[5].key@) is Ok
    &&& user_decodes(accounts[3].data@)
}

} // verus!
