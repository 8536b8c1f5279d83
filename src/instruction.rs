use vstd::prelude::*;
use vstd::bytes::{
    lemma_auto_spec_u32_to_from_le_bytes, lemma_auto_spec_u64_to_from_le_bytes, spec_u32_to_le_bytes,
    u32_from_le_bytes, u32_to_le_bytes,
};
use vstd::slice::slice_subrange;
use vstd::utf8::{encode_utf8, encode_utf8_valid_utf8, valid_utf8};

use crate::account::AccountView;
use crate::address::Address;
use crate::codec::{le64, push_address, push_u64, read_address, read_combo, read_u64};
use crate::error::AppError;
use crate::processor::{
    buy_outcome, claim_outcome, clear_outcome, close_outcome, configure_outcome, process_buy, process_claim,
    process_clear, process_close, process_configure, Effect,
};
use crate::state::{BuyTicketsArgs, ClaimArgs, ClearArgs, ConfigureArgs};
use crate::utils::{rent_service, rent_service_id, system_service, system_service_id, token_service, token_service_id};

verus! {

/// A request: an operation with its arguments.
#[derive(Clone, Debug)]
pub enum AppInstruction {
    Configure(ConfigureArgs),
    BuyTickets(BuyTicketsArgs),
    CloseRound,
    Claim(ClaimArgs),
    Clear(ClearArgs),
}

/// The payload of Configure: two identities, the round text with its length as a
/// little-endian 32-bit integer before it, and two 64-bit integers.
pub open spec fn configure_args_bytes(a: ConfigureArgs) -> Seq<u8> {
    let text = encode_utf8(a.round@);
    a.authority@ + a.charge_addr@ + spec_u32_to_le_bytes(text.len() as u32) + text + le64(a.start_time) + le64(
        a.total_reward,
    )
}

/// The payload of BuyTickets: a presence byte, then the combination if present, then the
/// ticket count.
pub open spec fn buy_args_bytes(a: BuyTicketsArgs) -> Seq<u8> {
    match a.shot {
        Some(c) => seq![1u8] + c@ + le64(a.num),
        None => seq![0u8] + le64(a.num),
    }
}

/// The bytes of a request: the operation's index, then its payload.
pub open spec fn instruction_bytes(ix: AppInstruction) -> Seq<u8> {
    match ix {
        AppInstruction::Configure(a) => seq![0u8] + configure_args_bytes(a),
        AppInstruction::BuyTickets(a) => seq![1u8] + buy_args_bytes(a),
        AppInstruction::CloseRound => seq![2u8],
        AppInstruction::Claim(a) => seq![3u8] + le64(a.round),
        AppInstruction::Clear(a) => seq![4u8] + le64(a.amt),
    }
}

/// A request whose round text is short enough for its length prefix.
pub open spec fn encodable(ix: AppInstruction) -> bool {
    match ix {
        AppInstruction::Configure(a) => encode_utf8(a.round@).len() <= u32::MAX,
        _ => true,
    }
}

/// Some request is encoded by `b`.
pub open spec fn decodable(b: Seq<u8>) -> bool {
    exists|ix: AppInstruction| encodable(ix) && instruction_bytes(ix) == b
}

/// Relies on `String::from_utf8`: it succeeds exactly on UTF-8 bytes, and the string then
/// holds those bytes.
#[verifier::external_body]
fn string_from_utf8(v: Vec<u8>) -> (r: Option<String>)
    ensures
        r is Some <==> valid_utf8(v@),
        r matches Some(s) ==> encode_utf8(s@) == v@,
{
    String::from_utf8(v).ok()
}

fn copy_range(data: &[u8], start: usize, end: usize) -> (r: Vec<u8>)
    requires
        start <= end <= data@.len(),
    ensures
        r@ == data@.subrange(start as int, end as int),
{
    let mut r: Vec<u8> = Vec::new();
    let mut i: usize = start;
    while i < end
        invariant
            start <= i <= end <= data@.len(),
            r@ == data@.subrange(start as int, i as int),
        decreases end - i,
    {
        r.push(data[i]);
        i = i + 1;
        assert(r@ =~= data@.subrange(start as int, i as int));
    }
    r
}

proof fn lemma_shape(ix: AppInstruction)
    requires
        encodable(ix),
    ensures
        instruction_bytes(ix).len() >= 1,
        ix is Configure <==> instruction_bytes(ix)[0] == 0,
        ix is BuyTickets <==> instruction_bytes(ix)[0] == 1,
        ix is CloseRound <==> instruction_bytes(ix)[0] == 2,
        ix is Claim <==> instruction_bytes(ix)[0] == 3,
        ix is Clear <==> instruction_bytes(ix)[0] == 4,
        ix is CloseRound ==> instruction_bytes(ix).len() == 1,
        ix is Claim ==> instruction_bytes(ix).len() == 9,
        ix is Clear ==> instruction_bytes(ix).len() == 9,
        ix matches AppInstruction::BuyTickets(a) ==> {
            let b = instruction_bytes(ix);
            &&& (a.shot is None <==> b[1] == 0)
            &&& (a.shot is Some <==> b[1] == 1)
            &&& a.shot is None ==> b.len() == 10
            &&& a.shot is Some ==> b.len() == 16
        },
        ix matches AppInstruction::Configure(a) ==> {
            let b = instruction_bytes(ix);
            let text = encode_utf8(a.round@);
            &&& b.len() == 85 + text.len()
            &&& b.subrange(65, 69) == spec_u32_to_le_bytes(text.len() as u32)
            &&& b.subrange(69, 69 + text.len() as int) == text
        },
{
    lemma_auto_spec_u32_to_from_le_bytes();
    lemma_auto_spec_u64_to_from_le_bytes();
    let b = instruction_bytes(ix);
    match ix {
        AppInstruction::Configure(a) => {
            let text = encode_utf8(a.round@);
            assert(b.subrange(65, 69) =~= spec_u32_to_le_bytes(text.len() as u32));
            assert(b.subrange(69, 69 + text.len() as int) =~= text);
        },
        AppInstruction::BuyTickets(a) => {
            match a.shot {
                Some(c) => {
                    assert(b[1] == 1);
                },
                None => {
                    assert(b[1] == 0);
                },
            }
        },
        _ => {},
    }
}

impl AppInstruction {
    /// Reads a request from its bytes; every byte must be used.
    pub fn unpack(input: &[u8]) -> (r: Result<AppInstruction, AppError>)
        ensures
            r is Ok <==> decodable(input@),
            r is Err ==> r == Err::<AppInstruction, AppError>(AppError::InvalidInstructionData),
            r matches Ok(ix) ==> encodable(ix) && instruction_bytes(ix) == input@,
    {
        let len = input.len();
        proof {
            lemma_auto_spec_u32_to_from_le_bytes();
            lemma_auto_spec_u64_to_from_le_bytes();
        }
        if len == 0 {
            proof {
                assert forall|ix: AppInstruction| encodable(ix) implies instruction_bytes(ix) != input@ by {
                    lemma_shape(ix);
                }
            }
            return Err(AppError::InvalidInstructionData);
        }
        let tag = input[0];
        if tag == 2 && len == 1 {
            let ix = AppInstruction::CloseRound;
            assert(instruction_bytes(ix) =~= input@);
            return Ok(ix);
        }
        if (tag == 3 || tag == 4) && len == 9 {
            let v = read_u64(input, 1);
            let ix = if tag == 3 {
                AppInstruction::Claim(ClaimArgs { round: v })
            } else {
                AppInstruction::Clear(ClearArgs { amt: v })
            };
            assert(instruction_bytes(ix) =~= input@);
            return Ok(ix);
        }
        if tag == 1 && len == 10 && input[1] == 0 {
            let ix = AppInstruction::BuyTickets(BuyTicketsArgs { shot: None, num: read_u64(input, 2) });
            assert(instruction_bytes(ix) =~= input@);
            return Ok(ix);
        }
        if tag == 1 && len == 16 && input[1] == 1 {
            let combo = read_combo(input, 2);
            let ix = AppInstruction::BuyTickets(BuyTicketsArgs { shot: Some(combo), num: read_u64(input, 8) });
            assert(instruction_bytes(ix) =~= input@);
            return Ok(ix);
        }
        if tag == 0 && len >= 85 {
            let n = u32_from_le_bytes(slice_subrange(input, 65, 69)) as usize;
            if len - 85 == n {
                let text = copy_range(input, 69, 69 + n);
                let ghost tv = text@;
                if let Some(round) = string_from_utf8(text) {
                    let args = ConfigureArgs {
                        authority: read_address(input, 1),
                        charge_addr: read_address(input, 33),
                        round,
                        start_time: read_u64(input, 69 + n),
                        total_reward: read_u64(input, 77 + n),
                    };
                    let ix = AppInstruction::Configure(args);
                    assert(input@.subrange(65, 69) =~= spec_u32_to_le_bytes(n as u32));
                    assert(instruction_bytes(ix) =~= input@);
                    return Ok(ix);
                } else {
                    proof {
                        assert forall|ix: AppInstruction| encodable(ix) implies instruction_bytes(ix) != input@ by {
                            lemma_shape(ix);
                            if instruction_bytes(ix) == input@ {
                                if let AppInstruction::Configure(a) = ix {
                                    encode_utf8_valid_utf8(a.round@);
                                    assert(tv =~= encode_utf8(a.round@));
                                }
                            }
                        }
                    }
                    return Err(AppError::InvalidInstructionData);
                }
            }
        }
        proof {
            assert forall|ix: AppInstruction| encodable(ix) implies instruction_bytes(ix) != input@ by {
                lemma_shape(ix);
                if instruction_bytes(ix) == input@ {
                    if let AppInstruction::Configure(a) = ix {
                        assert(input@.subrange(65, 69) == spec_u32_to_le_bytes(encode_utf8(a.round@).len() as u32));
                    }
                }
            }
        }
        Err(AppError::InvalidInstructionData)
    }

    /// The request's bytes.
    pub fn pack(&self) -> (r: Vec<u8>)
        requires
            encodable(*self),
        ensures
            r@ == instruction_bytes(*self),
    {
        let mut out: Vec<u8> = Vec::new();
        match self {
            AppInstruction::Configure(a) => {
                out.push(0u8);
                push_address(&mut out, &a.authority);
                push_address(&mut out, &a.charge_addr);
                let text = a.round.as_str().as_bytes();
                let mut prefix = u32_to_le_bytes(text.len() as u32);
                out.append(&mut prefix);
                out.extend_from_slice(text);
                push_u64(&mut out, a.start_time);
                push_u64(&mut out, a.total_reward);
            },
            AppInstruction::BuyTickets(a) => {
                out.push(1u8);
                match a.shot {
                    Some(c) => {
                        out.push(1u8);
                        out.extend_from_slice(&c);
                    },
                    None => {
                        out.push(0u8);
                    },
                }
                push_u64(&mut out, a.num);
            },
            AppInstruction::CloseRound => {
                out.push(2u8);
            },
            AppInstruction::Claim(a) => {
                out.push(3u8);
                push_u64(&mut out, a.round);
            },
            AppInstruction::Clear(a) => {
                out.push(4u8);
                push_u64(&mut out, a.amt);
            },
        }
        assert(out@ =~= instruction_bytes(*self));
        out
    }
}

/// Decodes a request and runs its operation. A payload that encodes no request is refused.
pub fn process_instruction(program_id: &Address, accounts: &[AccountView], input: &[u8], now: u64) -> (r: Result<
    Vec<Effect>,
    AppError,
>)
    ensures
        !decodable(input@) ==> r == Err::<Vec<Effect>, AppError>(AppError::InvalidInstructionData),
        decodable(input@) ==> exists|ix: AppInstruction|
            {
                &&& encodable(ix)
                &&& #[trigger] instruction_bytes(ix) == input@
                &&& match ix {
                    AppInstruction::Configure(a) => configure_outcome(program_id@, accounts@, a, now, r),
                    AppInstruction::BuyTickets(a) => buy_outcome(program_id@, accounts@, a, now, r),
                    AppInstruction::CloseRound => close_outcome(program_id@, accounts@, now, r),
                    AppInstruction::Claim(a) => claim_outcome(program_id@, accounts@, a, r),
                    AppInstruction::Clear(a) => clear_outcome(program_id@, accounts@, a, r),
                }
            },
{
    let ix = match AppInstruction::unpack(input) {
        Ok(ix) => ix,
        Err(e) => {
            return Err(e);
        },
    };
    let ghost g = ix;
    let r = match ix {
        AppInstruction::Configure(args) => process_configure(program_id, accounts, args, now),
        AppInstruction::BuyTickets(args) => process_buy(program_id, accounts, args, now),
        AppInstruction::CloseRound => process_close(program_id, accounts, now),
        AppInstruction::Claim(args) => process_claim(program_id, accounts, args),
        AppInstruction::Clear(args) => process_clear(program_id, accounts, args),
    };
    assert(instruction_bytes(g) == input@);
    r
}

/// One storage-slot reference of a request.
#[derive(Clone, Copy, Debug)]
pub struct AccountMeta {
    pub pubkey: Address,
    pub is_signer: bool,
    pub is_writable: bool,
}

/// A request addressed to the program.
#[derive(Clone, Debug)]
pub struct Instruction {
    pub program_id: Address,
    pub accounts: Vec<AccountMeta>,
    pub data: Vec<u8>,
}

/// `m` references `key`, with these flags.
pub open spec fn meta_is(m: AccountMeta, key: Seq<u8>, is_signer: bool, is_writable: bool) -> bool {
    m.pubkey@ == key && m.is_signer == is_signer && m.is_writable == is_writable
}

fn writable(key: &Address, is_signer: bool) -> (r: AccountMeta)
    ensures
        meta_is(r, key@, is_signer, true),
{
    AccountMeta { pubkey: *key, is_signer, is_writable: true }
}

fn readonly(key: Address) -> (r: AccountMeta)
    ensures
        meta_is(r, key@, false, false),
{
    AccountMeta { pubkey: key, is_signer: false, is_writable: false }
}

/// Builds a Configure request; refused where the round text is too long for its prefix.
pub fn configure(
    program_id: &Address,
    siger: &Address,
    config_info: &Address,
    round_info: &Address,
    mint_info: &Address,
    mint_vault: &Address,
    transfer_auth: &Address,
    args: ConfigureArgs,
) -> (r: Result<Instruction, AppError>)
    ensures
        encodable(AppInstruction::Configure(args)) <==> r is Ok,
        r is Err ==> r == Err::<Instruction, AppError>(AppError::InvalidInstructionData),
        r matches Ok(ix) ==> {
            &&& ix.program_id@ == program_id@
            &&& ix.data@ == instruction_bytes(AppInstruction::Configure(args))
            &&& ix.accounts@.len() == 9
            &&& meta_is(ix.accounts@[0], siger@, true, true)
            &&& meta_is(ix.accounts@[1], config_info@, false, true)
            &&& meta_is(ix.accounts@[2], round_info@, false, true)
            &&& meta_is(ix.accounts@[3], mint_info@, false, true)
            &&& meta_is(ix.accounts@[4], mint_vault@, false, true)
            &&& meta_is(ix.accounts@[5], transfer_auth@, false, true)
            &&& meta_is(ix.accounts@[6], token_service(), false, false)
            &&& meta_is(ix.accounts@[7], rent_service(), false, false)
            &&& meta_is(ix.accounts@[8], system_service(), false, false)
        },
{
    if args.round.as_str().as_bytes().len() > 0xffff_ffffusize {
        return Err(AppError::InvalidInstructionData);
    }
    let ix = AppInstruction::Configure(args);
    let data = ix.pack();
    let accounts: Vec<AccountMeta> = vec![
        writable(siger, true),
        writable(config_info, false),
        writable(round_info, false),
        writable(mint_info, false),
        writable(mint_vault, false),
        writable(transfer_auth, false),
        readonly(token_service_id()),
        readonly(rent_service_id()),
        readonly(system_service_id()),
    ];
    Ok(Instruction { program_id: *program_id, accounts, data })
}

/// Builds a BuyTickets request.
pub fn buy(
    program_id: &Address,
    siger: &Address,
    config_info: &Address,
    user_info: &Address,
    charge_info: &Address,
    args: BuyTicketsArgs,
) -> (r: Result<Instruction, AppError>)
    ensures
        r matches Ok(ix) && {
            &&& ix.program_id@ == program_id@
            &&& ix.data@ == instruction_bytes(AppInstruction::BuyTickets(args))
            &&& ix.accounts@.len() == 6
            &&& meta_is(ix.accounts@[0], siger@, true, true)
            &&& meta_is(ix.accounts@[1], config_info@, false, true)
            &&& meta_is(ix.accounts@[2], user_info@, false, true)
            &&& meta_is(ix.accounts@[3], charge_info@, false, true)
            &&& meta_is(ix.accounts@[4], rent_service(), false, false)
            &&& meta_is(ix.accounts@[5], system_service(), false, false)
        },
{
    let data = AppInstruction::BuyTickets(args).pack();
    let accounts: Vec<AccountMeta> = vec![
        writable(siger, true),
        writable(config_info, false),
        writable(user_info, false),
        writable(charge_info, false),
        readonly(rent_service_id()),
        readonly(system_service_id()),
    ];
    Ok(Instruction { program_id: *program_id, accounts, data })
}

/// Builds a CloseRound request.
pub fn close(
    program_id: &Address,
    siger: &Address,
    config_info: &Address,
    round_info: &Address,
    new_config_info: &Address,
) -> (r: Result<Instruction, AppError>)
    ensures
        r matches Ok(ix) && {
            &&& ix.program_id@ == program_id@
            &&& ix.data@ == instruction_bytes(AppInstruction::CloseRound)
            &&& ix.accounts@.len() == 6
            &&& meta_is(ix.accounts@[0], siger@, true, true)
            &&& meta_is(ix.accounts@[1], config_info@, false, true)
            &&& meta_is(ix.accounts@[2], round_info@, false, true)
            &&& meta_is(ix.accounts@[3], new_config_info@, false, true)
            &&& meta_is(ix.accounts@[4], rent_service(), false, false)
            &&& meta_is(ix.accounts@[5], system_service(), false, false)
        },
{
    let data = AppInstruction::CloseRound.pack();
    let accounts: Vec<AccountMeta> = vec![
        writable(siger, true),
        writable(config_info, false),
        writable(round_info, false),
        writable(new_config_info, false),
        readonly(rent_service_id()),
        readonly(system_service_id()),
    ];
    Ok(Instruction { program_id: *program_id, accounts, data })
}

/// Builds a Claim request.
pub fn claim(
    program_id: &Address,
    siger: &Address,
    config_info: &Address,
    mint_info: &Address,
    user_info: &Address,
    mint_vault: &Address,
    transfer_auth: &Address,
    token_account: &Address,
    args: ClaimArgs,
) -> (r: Result<Instruction, AppError>)
    ensures
        r matches Ok(ix) && {
            &&& ix.program_id@ == program_id@
            &&& ix.data@ == instruction_bytes(AppInstruction::Claim(args))
            &&& ix.accounts@.len() == 10
            &&& meta_is(ix.accounts@[0], siger@, true, true)
            &&& meta_is(ix.accounts@[1], config_info@, false, true)
            &&& meta_is(ix.accounts@[2], mint_info@, false, true)
            &&& meta_is(ix.accounts@[3], user_info@, false, true)
            &&& meta_is(ix.accounts@[4], mint_vault@, false, true)
            &&& meta_is(ix.accounts@[5], transfer_auth@, false, true)
            &&& meta_is(ix.accounts@[6], token_account@, false, true)
            &&& meta_is(ix.accounts@[7], token_service(), false, false)
            &&& meta_is(ix.accounts@[8], rent_service(), false, false)
            &&& meta_is(ix.accounts@[9], system_service(), false, false)
        },
{
    let data = AppInstruction::Claim(args).pack();
    let accounts: Vec<AccountMeta> = vec![
        writable(siger, true),
        writable(config_info, false),
        writable(mint_info, false),
        writable(user_info, false),
        writable(mint_vault, false),
        writable(transfer_auth, false),
        writable(token_account, false),
        readonly(token_service_id()),
        readonly(rent_service_id()),
        readonly(system_service_id()),
    ];
    Ok(Instruction { program_id: *program_id, accounts, data })
}

/// Builds a Clear request.
pub fn clear(
    program_id: &Address,
    siger: &Address,
    config_info: &Address,
    mint_info: &Address,
    mint_vault: &Address,
    transfer_auth: &Address,
    token_account: &Address,
    args: ClearArgs,
) -> (r: Result<Instruction, AppError>)
    ensures
        r matches Ok(ix) && {
            &&& ix.program_id@ == program_id@
            &&& ix.data@ == instruction_bytes(AppInstruction::Clear(args))
            &&& ix.accounts@.len() == 9
            &&& meta_is(ix.accounts@[0], siger@, true, true)
            &&& meta_is(ix.accounts@[1], config_info@, false, true)
            &&& meta_is(ix.accounts@[2], mint_info@, false, true)
            &&& meta_is(ix.accounts@[3], mint_vault@, false, true)
            &&& meta_is(ix.accounts@[4], transfer_auth@, false, true)
            &&& meta_is(ix.accounts@[5], token_account@, false, true)
            &&& meta_is(ix.accounts@[6], token_service(), false, false)
            &&& meta_is(ix.accounts@[7], rent_service(), false, false)
            &&& meta_is(ix.accounts@[8], system_service(), false, false)
        },
{
    let data = AppInstruction::Clear(args).pack();
    let accounts: Vec<AccountMeta> = vec![
        writable(siger, true),
        writable(config_info, false),
        writable(mint_info, false),
        writable(mint_vault, false),
        writable(transfer_auth, false),
        writable(token_account, false),
        readonly(token_service_id()),
        readonly(rent_service_id()),
        readonly(system_service_id()),
    ];
    Ok(Instruction { program_id: *program_id, accounts, data })
}

} // verus!
