use vstd::prelude::*;

use crate::account::AccountView;
use crate::address::{derivation_check, verify_derivation, Address};
use crate::error::AppError;

verus! {

/// The namespace tag "config".
pub open spec fn config_tag() -> Seq<u8> {
    seq![0x63, 0x6f, 0x6e, 0x66, 0x69, 0x67]
}

fn config_tag_bytes() -> (r: Vec<u8>)
    ensures
        r@ == config_tag(),
{
    let r: Vec<u8> = vec![0x63, 0x6f, 0x6e, 0x66, 0x69, 0x67];
    assert(r@ =~= config_tag());
    r
}

/// The namespace tag "round".
pub open spec fn round_tag() -> Seq<u8> {
    seq![0x72, 0x6f, 0x75, 0x6e, 0x64]
}

fn round_tag_bytes() -> (r: Vec<u8>)
    ensures
        r@ == round_tag(),
{
    let r: Vec<u8> = vec![0x72, 0x6f, 0x75, 0x6e, 0x64];
    assert(r@ =~= round_tag());
    r
}

/// The namespace tag "mint_vault".
pub open spec fn mint_vault_tag() -> Seq<u8> {
    seq![0x6d, 0x69, 0x6e, 0x74, 0x5f, 0x76, 0x61, 0x75, 0x6c, 0x74]
}

fn mint_vault_tag_bytes() -> (r: Vec<u8>)
    ensures
        r@ == mint_vault_tag(),
{
    let r: Vec<u8> = vec![0x6d, 0x69, 0x6e, 0x74, 0x5f, 0x76, 0x61, 0x75, 0x6c, 0x74];
    assert(r@ =~= mint_vault_tag());
    r
}

/// The namespace tag "transfer_auth".
pub open spec fn transfer_auth_tag() -> Seq<u8> {
    seq![0x74, 0x72, 0x61, 0x6e, 0x73, 0x66, 0x65, 0x72, 0x5f, 0x61, 0x75, 0x74, 0x68]
}

fn transfer_auth_tag_bytes() -> (r: Vec<u8>)
    ensures
        r@ == transfer_auth_tag(),
{
    let r: Vec<u8> = vec![0x74, 0x72, 0x61, 0x6e, 0x73, 0x66, 0x65, 0x72, 0x5f, 0x61, 0x75, 0x74, 0x68];
    assert(r@ =~= transfer_auth_tag());
    r
}

/// The namespace tag "user_info".
pub open spec fn user_info_tag() -> Seq<u8> {
    seq![0x75, 0x73, 0x65, 0x72, 0x5f, 0x69, 0x6e, 0x66, 0x6f]
}

fn user_info_tag_bytes() -> (r: Vec<u8>)
    ensures
        r@ == user_info_tag(),
{
    let r: Vec<u8> = vec![0x75, 0x73, 0x65, 0x72, 0x5f, 0x69, 0x6e, 0x66, 0x6f];
    assert(r@ =~= user_info_tag());
    r
}

/// The namespace tag "token_info".
pub open spec fn token_info_tag() -> Seq<u8> {
    seq![0x74, 0x6f, 0x6b, 0x65, 0x6e, 0x5f, 0x69, 0x6e, 0x66, 0x6f]
}

fn token_info_tag_bytes() -> (r: Vec<u8>)
    ensures
        r@ == token_info_tag(),
{
    let r: Vec<u8> = vec![0x74, 0x6f, 0x6b, 0x65, 0x6e, 0x5f, 0x69, 0x6e, 0x66, 0x6f];
    assert(r@ =~= token_info_tag());
    r
}

/// The namespace tag "token_vault".
pub open spec fn token_vault_tag() -> Seq<u8> {
    seq![0x74, 0x6f, 0x6b, 0x65, 0x6e, 0x5f, 0x76, 0x61, 0x75, 0x6c, 0x74]
}

fn token_vault_tag_bytes() -> (r: Vec<u8>)
    ensures
        r@ == token_vault_tag(),
{
    let r: Vec<u8> = vec![0x74, 0x6f, 0x6b, 0x65, 0x6e, 0x5f, 0x76, 0x61, 0x75, 0x6c, 0x74];
    assert(r@ =~= token_vault_tag());
    r
}

/// The namespace tag "pda_creator".
pub open spec fn pda_creator_tag() -> Seq<u8> {
    seq![0x70, 0x64, 0x61, 0x5f, 0x63, 0x72, 0x65, 0x61, 0x74, 0x6f, 0x72]
}

fn pda_creator_tag_bytes() -> (r: Vec<u8>)
    ensures
        r@ == pda_creator_tag(),
{
    let r: Vec<u8> = vec![0x70, 0x64, 0x61, 0x5f, 0x63, 0x72, 0x65, 0x61, 0x74, 0x6f, 0x72];
    assert(r@ =~= pda_creator_tag());
    r
}

/// The namespace tag "collection".
pub open spec fn collection_tag() -> Seq<u8> {
    seq![0x63, 0x6f, 0x6c, 0x6c, 0x65, 0x63, 0x74, 0x69, 0x6f, 0x6e]
}

fn collection_tag_bytes() -> (r: Vec<u8>)
    ensures
        r@ == collection_tag(),
{
    let r: Vec<u8> = vec![0x63, 0x6f, 0x6c, 0x6c, 0x65, 0x63, 0x74, 0x69, 0x6f, 0x6e];
    assert(r@ =~= collection_tag());
    r
}

fn seeds2(a: Vec<u8>, b: Vec<u8>) -> (r: Vec<Vec<u8>>)
    ensures
        r.deep_view() == seq![a@, b@],
{
    let ghost (av, bv) = (a@, b@);
    let r = vec![a, b];
    assert(r@[0].deep_view() =~= av);
    assert(r@[1].deep_view() =~= bv);
    assert(r.deep_view() =~= seq![av, bv]);
    r
}

fn seeds3(a: Vec<u8>, b: Vec<u8>, c: Vec<u8>) -> (r: Vec<Vec<u8>>)
    ensures
        r.deep_view() == seq![a@, b@, c@],
{
    let ghost (av, bv, cv) = (a@, b@, c@);
    let r = vec![a, b, c];
    assert(r@[0].deep_view() =~= av);
    assert(r@[1].deep_view() =~= bv);
    assert(r@[2].deep_view() =~= cv);
    assert(r.deep_view() =~= seq![av, bv, cv]);
    r
}

fn seeds4(a: Vec<u8>, b: Vec<u8>, c: Vec<u8>, d: Vec<u8>) -> (r: Vec<Vec<u8>>)
    ensures
        r.deep_view() == seq![a@, b@, c@, d@],
{
    let ghost (av, bv, cv, dv) = (a@, b@, c@, d@);
    let r = vec![a, b, c, d];
    assert(r@[0].deep_view() =~= av);
    assert(r@[1].deep_view() =~= bv);
    assert(r@[2].deep_view() =~= cv);
    assert(r@[3].deep_view() =~= dv);
    assert(r.deep_view() =~= seq![av, bv, cv, dv]);
    r
}

/// The seeds of a signing identity: the derivation seeds followed by the bump seed.
pub fn with_bump(seeds: Vec<Vec<u8>>, bump: u8) -> (r: Vec<Vec<u8>>)
    ensures
        r.deep_view() == seeds.deep_view().push(seq![bump]),
{
    let ghost old_view = seeds.deep_view();
    let mut r = seeds;
    let b: Vec<u8> = vec![bump];
    assert(b.deep_view() =~= seq![bump]);
    r.push(b);
    assert(r.deep_view() =~= old_view.push(seq![bump]));
    r
}

fn key_bytes(a: &Address) -> (r: Vec<u8>)
    ensures
        r@ == a@,
{
    let mut r: Vec<u8> = Vec::new();
    let mut i: usize = 0;
    while i < 32
        invariant
            i <= 32,
            a@.len() == 32,
            r@ == a@.take(i as int),
        decreases 32 - i,
    {
        r.push(a.bytes[i]);
        i = i + 1;
        assert(r@ =~= a@.take(i as int));
    }
    assert(a@.take(32) =~= a@);
    r
}

fn copy_bytes(s: &[u8]) -> (r: Vec<u8>)
    ensures
        r@ == s@,
{
    let mut r: Vec<u8> = Vec::new();
    let mut i: usize = 0;
    while i < s.len()
        invariant
            i <= s@.len(),
            r@ == s@.take(i as int),
        decreases s@.len() - i,
    {
        r.push(s[i]);
        i = i + 1;
        assert(r@ =~= s@.take(i as int));
    }
    assert(s@.take(s@.len() as int) =~= s@);
    r
}

/// Seeds of the configuration slot of the round whose text is `round`.
pub open spec fn config_seeds(program_id: Seq<u8>, round: Seq<u8>) -> Seq<Seq<u8>> {
    seq![program_id, config_tag(), round]
}

/// Seeds of the singleton round-counter slot.
pub open spec fn round_seeds(program_id: Seq<u8>) -> Seq<Seq<u8>> {
    seq![program_id, round_tag()]
}

/// Seeds of the reward vault of an asset.
pub open spec fn mint_vault_seeds(program_id: Seq<u8>, asset: Seq<u8>) -> Seq<Seq<u8>> {
    seq![program_id, asset, mint_vault_tag()]
}

/// Seeds of the transfer authority of an asset.
pub open spec fn transfer_auth_seeds(program_id: Seq<u8>, asset: Seq<u8>) -> Seq<Seq<u8>> {
    seq![program_id, asset, transfer_auth_tag()]
}

/// Seeds of the ticket record of `user` in the round whose text is `round`.
pub open spec fn user_seeds(program_id: Seq<u8>, user: Seq<u8>, round: Seq<u8>) -> Seq<Seq<u8>> {
    seq![program_id, user, user_info_tag(), round]
}

pub fn config_seed_list(program_id: &Address, round: &[u8]) -> (r: Vec<Vec<u8>>)
    ensures
        r.deep_view() == config_seeds(program_id@, round@),
{
    seeds3(key_bytes(program_id), config_tag_bytes(), copy_bytes(round))
}

pub fn round_seed_list(program_id: &Address) -> (r: Vec<Vec<u8>>)
    ensures
        r.deep_view() == round_seeds(program_id@),
{
    seeds2(key_bytes(program_id), round_tag_bytes())
}

pub fn mint_vault_seed_list(program_id: &Address, asset: &Address) -> (r: Vec<Vec<u8>>)
    ensures
        r.deep_view() == mint_vault_seeds(program_id@, asset@),
{
    seeds3(key_bytes(program_id), key_bytes(asset), mint_vault_tag_bytes())
}

pub fn transfer_auth_seed_list(program_id: &Address, asset: &Address) -> (r: Vec<Vec<u8>>)
    ensures
        r.deep_view() == transfer_auth_seeds(program_id@, asset@),
{
    seeds3(key_bytes(program_id), key_bytes(asset), transfer_auth_tag_bytes())
}

pub fn user_seed_list(program_id: &Address, user: &Address, round: &[u8]) -> (r: Vec<Vec<u8>>)
    ensures
        r.deep_view() == user_seeds(program_id@, user@, round@),
{
    seeds4(key_bytes(program_id), key_bytes(user), user_info_tag_bytes(), copy_bytes(round))
}

/// Checks that `account` is the slot derived from `path`, and returns its bump seed.
pub fn assert_derivation(program_id: &Address, account: &AccountView, path: &Vec<Vec<u8>>) -> (r: Result<u8, AppError>)
    ensures
        r == derivation_check(path.deep_view(), program_id@, account.key@),
{
    verify_derivation(program_id, path, &account.key)
}

/// Checks the configuration slot of the round whose text is `round`.
pub fn assert_config(program_id: &Address, account: &AccountView, round: &[u8]) -> (r: Result<u8, AppError>)
    ensures
        r == derivation_check(config_seeds(program_id@, round@), program_id@, account.key@),
{
    let path = config_seed_list(program_id, round);
    assert_derivation(program_id, account, &path)
}

/// Checks the round-counter slot.
pub fn assert_round(program_id: &Address, account: &AccountView) -> (r: Result<u8, AppError>)
    ensures
        r == derivation_check(round_seeds(program_id@), program_id@, account.key@),
{
    let path = round_seed_list(program_id);
    assert_derivation(program_id, account, &path)
}

/// Checks the ticket record of `user` in the round whose text is `round`.
pub fn assert_user_info(program_id: &Address, user: &Address, account: &AccountView, round: &[u8]) -> (r: Result<u8, AppError>)
    ensures
        r == derivation_check(user_seeds(program_id@, user@, round@), program_id@, account.key@),
{
    let path = user_seed_list(program_id, user, round);
    assert_derivation(program_id, account, &path)
}

/// Checks the reward vault of the asset `token`.
pub fn assert_mint_vault(program_id: &Address, token: &AccountView, token_vault: &AccountView) -> (r: Result<u8, AppError>)
    ensures
        r == derivation_check(mint_vault_seeds(program_id@, token.key@), program_id@, token_vault.key@),
{
    let path = mint_vault_seed_list(program_id, &token.key);
    assert_derivation(program_id, token_vault, &path)
}

/// Checks the transfer authority of the asset `token`.
pub fn assert_tranfer_authority(program_id: &Address, token: &AccountView, authority_info: &AccountView) -> (r: Result<u8, AppError>)
    ensures
        r == derivation_check(transfer_auth_seeds(program_id@, token.key@), program_id@, authority_info.key@),
{
    let path = transfer_auth_seed_list(program_id, &token.key);
    assert_derivation(program_id, authority_info, &path)
}

/// Checks a slot derived from `program_id`, `mint` and the tag "token_info".
pub fn assert_token_info(program_id: &Address, new_mint: &Address, account: &AccountView) -> (r: Result<u8, AppError>)
    ensures
        r == derivation_check(seq![program_id@, new_mint@, token_info_tag()], program_id@, account.key@),
{
    let path = seeds3(key_bytes(program_id), key_bytes(new_mint), token_info_tag_bytes());
    assert_derivation(program_id, account, &path)
}

/// Checks a slot derived from `program_id`, `mint` and the tag "token_vault".
pub fn assert_token_vault(program_id: &Address, new_mint: &Address, account: &AccountView) -> (r: Result<u8, AppError>)
    ensures
        r == derivation_check(seq![program_id@, new_mint@, token_vault_tag()], program_id@, account.key@),
{
    let path = seeds3(key_bytes(program_id), key_bytes(new_mint), token_vault_tag_bytes());
    assert_derivation(program_id, account, &path)
}

/// Checks a slot derived from `program_id`, a collection asset and the tag "pda_creator".
pub fn assert_pda_creator(program_id: &Address, collection_mint: &AccountView, pda_creator_info: &AccountView) -> (r: Result<u8, AppError>)
    ensures
        r == derivation_check(seq![program_id@, collection_mint.key@, pda_creator_tag()], program_id@, pda_creator_info.key@),
{
    let path = seeds3(key_bytes(program_id), key_bytes(&collection_mint.key), pda_creator_tag_bytes());
    assert_derivation(program_id, pda_creator_info, &path)
}

/// Checks a slot derived from `program_id`, a collection asset and the tag "collection".
pub fn assert_collection(program_id: &Address, collection_mint: &AccountView, collection_info: &AccountView) -> (r: Result<u8, AppError>)
    ensures
        r == derivation_check(seq![program_id@, collection_mint.key@, collection_tag()], program_id@, collection_info.key@),
{
    let path = seeds3(key_bytes(program_id), key_bytes(&collection_mint.key), collection_tag_bytes());
    assert_derivation(program_id, collection_info, &path)
}

} // verus!
