use vstd::prelude::*;
use vstd::bytes::{
    lemma_auto_spec_u32_to_from_le_bytes, lemma_auto_spec_u64_to_from_le_bytes, spec_u32_from_le_bytes,
    spec_u32_to_le_bytes, spec_u64_to_le_bytes, u32_from_le_bytes, u32_to_le_bytes, u64_from_le_bytes,
    u64_to_le_bytes,
};
use vstd::slice::slice_subrange;

use crate::account::AccountView;
use crate::address::Address;
use crate::digest::be_value;
use crate::error::AppError;
use crate::lifecycle::{combo_code, combo_code_of, shots_sorted};
use crate::state::{ConfigureData, RoundData, UserData, MAX_SHOTS};

verus! {

/// Size of a configuration slot.
pub const CONFIG_LEN: usize = 225;

/// Size of a ticket-record slot.
pub const USER_LEN: usize = 273;

/// Size of the round-counter slot.
pub const ROUND_LEN: usize = 8;

/// The eight bytes of `v`, least significant first.
pub open spec fn le64(v: u64) -> Seq<u8> {
    spec_u64_to_le_bytes(v)
}

pub open spec fn bool_byte(b: bool) -> Seq<u8> {
    seq![if b { 1u8 } else { 0u8 }]
}

/// The layout of a configuration record: three identities, twelve little-endian 64-bit
/// integers and a flag byte, 193 bytes in all.
pub open spec fn config_bytes(c: ConfigureData) -> Seq<u8> {
    c.authority@ + c.charge_addr@ + c.token@ + le64(c.round) + le64(c.total_reward) + le64(c.allocated)
        + le64(c.target) + le64(c.start_time) + le64(c.total_shots) + le64(c.match1) + le64(c.match2)
        + le64(c.match3) + le64(c.match4) + le64(c.match5) + le64(c.match6) + bool_byte(c.closed)
}

/// The layout of the combinations of a ticket record: each combination's six bytes followed
/// by its count.
pub open spec fn shots_bytes(s: Seq<([u8; 6], u64)>) -> Seq<u8>
    decreases s.len(),
{
    if s.len() == 0 {
        Seq::empty()
    } else {
        shots_bytes(s.drop_last()) + s.last().0@ + le64(s.last().1)
    }
}

/// The layout of a ticket record: the number of combinations as a little-endian 32-bit
/// integer, the combinations, three 64-bit integers, the flag byte and six 64-bit integers.
pub open spec fn user_bytes(u: UserData) -> Seq<u8> {
    spec_u32_to_le_bytes(u.shots@.len() as u32) + shots_bytes(u.shots@) + le64(u.total_shots) + le64(u.round)
        + le64(u.reward) + bool_byte(u.claimed) + le64(u.match1) + le64(u.match2) + le64(u.match3)
        + le64(u.match4) + le64(u.match5) + le64(u.match6)
}

/// The layout of the round counter.
pub open spec fn round_bytes(r: RoundData) -> Seq<u8> {
    le64(r.round)
}

/// The configuration record held by a slot's bytes.
pub open spec fn stored_config(d: Seq<u8>) -> ConfigureData {
    choose|c: ConfigureData| config_bytes(c) == d.take(193)
}

pub(crate) proof fn lemma_address_from_view(a: Address, b: Address)
    requires
        a@ == b@,
    ensures
        a == b,
{
    assert(a.bytes =~= b.bytes) by {
        assert forall|i: int| 0 <= i < 32 implies a.bytes[i] == b.bytes[i] by {
            assert(a@[i] == b@[i]);
        }
    }
}

pub(crate) proof fn lemma_u64_from_bytes(a: u64, b: u64)
    requires
        le64(a) == le64(b),
    ensures
        a == b,
{
    lemma_auto_spec_u64_to_from_le_bytes();
}

/// Two configuration records with the same bytes are the same record.
pub proof fn lemma_config_bytes_injective(c1: ConfigureData, c2: ConfigureData)
    requires
        config_bytes(c1) == config_bytes(c2),
    ensures
        c1 == c2,
{
    lemma_auto_spec_u64_to_from_le_bytes();
    let b1 = config_bytes(c1);
    let b2 = config_bytes(c2);
    assert(b1.subrange(0, 32) =~= c1.authority@);
    assert(b2.subrange(0, 32) =~= c2.authority@);
    assert(b1.subrange(32, 64) =~= c1.charge_addr@);
    assert(b2.subrange(32, 64) =~= c2.charge_addr@);
    assert(b1.subrange(64, 96) =~= c1.token@);
    assert(b2.subrange(64, 96) =~= c2.token@);
    lemma_address_from_view(c1.authority, c2.authority);
    lemma_address_from_view(c1.charge_addr, c2.charge_addr);
    lemma_address_from_view(c1.token, c2.token);
    assert(b1.subrange(96, 104) =~= le64(c1.round));
    assert(b2.subrange(96, 104) =~= le64(c2.round));
    assert(b1.subrange(104, 112) =~= le64(c1.total_reward));
    assert(b2.subrange(104, 112) =~= le64(c2.total_reward));
    assert(b1.subrange(112, 120) =~= le64(c1.allocated));
    assert(b2.subrange(112, 120) =~= le64(c2.allocated));
    assert(b1.subrange(120, 128) =~= le64(c1.target));
    assert(b2.subrange(120, 128) =~= le64(c2.target));
    assert(b1.subrange(128, 136) =~= le64(c1.start_time));
    assert(b2.subrange(128, 136) =~= le64(c2.start_time));
    assert(b1.subrange(136, 144) =~= le64(c1.total_shots));
    assert(b2.subrange(136, 144) =~= le64(c2.total_shots));
    assert(b1.subrange(144, 152) =~= le64(c1.match1));
    assert(b2.subrange(144, 152) =~= le64(c2.match1));
    assert(b1.subrange(152, 160) =~= le64(c1.match2));
    assert(b2.subrange(152, 160) =~= le64(c2.match2));
    assert(b1.subrange(160, 168) =~= le64(c1.match3));
    assert(b2.subrange(160, 168) =~= le64(c2.match3));
    assert(b1.subrange(168, 176) =~= le64(c1.match4));
    assert(b2.subrange(168, 176) =~= le64(c2.match4));
    assert(b1.subrange(176, 184) =~= le64(c1.match5));
    assert(b2.subrange(176, 184) =~= le64(c2.match5));
    assert(b1.subrange(184, 192) =~= le64(c1.match6));
    assert(b2.subrange(184, 192) =~= le64(c2.match6));
    lemma_u64_from_bytes(c1.round, c2.round);
    lemma_u64_from_bytes(c1.total_reward, c2.total_reward);
    lemma_u64_from_bytes(c1.allocated, c2.allocated);
    lemma_u64_from_bytes(c1.target, c2.target);
    lemma_u64_from_bytes(c1.start_time, c2.start_time);
    lemma_u64_from_bytes(c1.total_shots, c2.total_shots);
    lemma_u64_from_bytes(c1.match1, c2.match1);
    lemma_u64_from_bytes(c1.match2, c2.match2);
    lemma_u64_from_bytes(c1.match3, c2.match3);
    lemma_u64_from_bytes(c1.match4, c2.match4);
    lemma_u64_from_bytes(c1.match5, c2.match5);
    lemma_u64_from_bytes(c1.match6, c2.match6);
    assert(b1[192] == b2[192]);
}

/// The record whose bytes a slot holds is the one `stored_config` names.
pub proof fn lemma_stored_config(c: ConfigureData, d: Seq<u8>)
    requires
        config_bytes(c) == d.take(193),
    ensures
        stored_config(d) == c,
{
    let s = stored_config(d);
    assert(config_bytes(s) == d.take(193));
    lemma_config_bytes_injective(s, c);
}

/// The round counter held by a slot's bytes.
pub open spec fn stored_round(d: Seq<u8>) -> RoundData {
    RoundData { round: vstd::bytes::spec_u64_from_le_bytes(d) }
}

/// The ticket record held by a slot's bytes (its combinations are fixed by their view).
pub open spec fn stored_user(d: Seq<u8>) -> UserData {
    choose|u: UserData| u.wf() && user_bytes(u) == d.take(77 + 14 * u.shots@.len() as int)
}

/// Two ticket records agree on everything that their bytes show.
pub open spec fn same_user(u1: UserData, u2: UserData) -> bool {
    &&& u1.shots@ == u2.shots@
    &&& u1.total_shots == u2.total_shots
    &&& u1.round == u2.round
    &&& u1.reward == u2.reward
    &&& u1.claimed == u2.claimed
    &&& u1.match1 == u2.match1
    &&& u1.match2 == u2.match2
    &&& u1.match3 == u2.match3
    &&& u1.match4 == u2.match4
    &&& u1.match5 == u2.match5
    &&& u1.match6 == u2.match6
}

proof fn lemma_shots_bytes_injective(s1: Seq<([u8; 6], u64)>, s2: Seq<([u8; 6], u64)>)
    requires
        s1.len() == s2.len(),
        shots_bytes(s1) == shots_bytes(s2),
    ensures
        s1 == s2,
    decreases s1.len(),
{
    if s1.len() > 0 {
        let b1 = shots_bytes(s1);
        let b2 = shots_bytes(s2);
        lemma_shots_bytes_len(s1.drop_last());
        lemma_shots_bytes_len(s2.drop_last());
        lemma_auto_spec_u64_to_from_le_bytes();
        let m = 14 * (s1.len() - 1);
        assert(b1.take(m) =~= shots_bytes(s1.drop_last()));
        assert(b2.take(m) =~= shots_bytes(s2.drop_last()));
        lemma_shots_bytes_injective(s1.drop_last(), s2.drop_last());
        assert(b1.subrange(m, m + 6) =~= s1.last().0@);
        assert(b2.subrange(m, m + 6) =~= s2.last().0@);
        assert(s1.last().0 =~= s2.last().0) by {
            assert forall|i: int| 0 <= i < 6 implies s1.last().0[i] == s2.last().0[i] by {
                assert(s1.last().0@[i] == s2.last().0@[i]);
            }
        }
        assert(b1.subrange(m + 6, m + 14) =~= le64(s1.last().1));
        assert(b2.subrange(m + 6, m + 14) =~= le64(s2.last().1));
        lemma_u64_from_bytes(s1.last().1, s2.last().1);
        assert(s1 =~= s1.drop_last().push(s1.last()));
        assert(s2 =~= s2.drop_last().push(s2.last()));
    }
}

/// Two well-formed ticket records held by the same bytes agree on all they show.
pub proof fn lemma_user_bytes_injective(u1: UserData, u2: UserData, d: Seq<u8>)
    requires
        u1.wf(),
        u2.wf(),
        user_bytes(u1) == d.take(77 + 14 * u1.shots@.len() as int),
        user_bytes(u2) == d.take(77 + 14 * u2.shots@.len() as int),
        d.len() >= USER_LEN,
    ensures
        same_user(u1, u2),
{
    lemma_auto_spec_u32_to_from_le_bytes();
    lemma_auto_spec_u64_to_from_le_bytes();
    lemma_shots_bytes_len(u1.shots@);
    lemma_shots_bytes_len(u2.shots@);
    let b1 = user_bytes(u1);
    let b2 = user_bytes(u2);
    assert(b1.take(4) =~= spec_u32_to_le_bytes(u1.shots@.len() as u32));
    assert(b2.take(4) =~= spec_u32_to_le_bytes(u2.shots@.len() as u32));
    assert(b1.take(4) =~= d.take(4));
    assert(b2.take(4) =~= d.take(4));
    assert(u1.shots@.len() == u2.shots@.len());
    assert(b1 == b2);
    let n = u1.shots@.len() as int;
    let p = 4 + 14 * n;
    assert(b1.subrange(4, p) =~= shots_bytes(u1.shots@));
    assert(b2.subrange(4, p) =~= shots_bytes(u2.shots@));
    lemma_shots_bytes_injective(u1.shots@, u2.shots@);
    assert(b1.subrange(p, p + 8) =~= le64(u1.total_shots));
    assert(b2.subrange(p, p + 8) =~= le64(u2.total_shots));
    assert(b1.subrange(p + 8, p + 16) =~= le64(u1.round));
    assert(b2.subrange(p + 8, p + 16) =~= le64(u2.round));
    assert(b1.subrange(p + 16, p + 24) =~= le64(u1.reward));
    assert(b2.subrange(p + 16, p + 24) =~= le64(u2.reward));
    assert(b1[p + 24] == b2[p + 24]);
    assert(b1.subrange(p + 25, p + 33) =~= le64(u1.match1));
    assert(b2.subrange(p + 25, p + 33) =~= le64(u2.match1));
    assert(b1.subrange(p + 33, p + 41) =~= le64(u1.match2));
    assert(b2.subrange(p + 33, p + 41) =~= le64(u2.match2));
    assert(b1.subrange(p + 41, p + 49) =~= le64(u1.match3));
    assert(b2.subrange(p + 41, p + 49) =~= le64(u2.match3));
    assert(b1.subrange(p + 49, p + 57) =~= le64(u1.match4));
    assert(b2.subrange(p + 49, p + 57) =~= le64(u2.match4));
    assert(b1.subrange(p + 57, p + 65) =~= le64(u1.match5));
    assert(b2.subrange(p + 57, p + 65) =~= le64(u2.match5));
    assert(b1.subrange(p + 65, p + 73) =~= le64(u1.match6));
    assert(b2.subrange(p + 65, p + 73) =~= le64(u2.match6));
    lemma_u64_from_bytes(u1.total_shots, u2.total_shots);
    lemma_u64_from_bytes(u1.round, u2.round);
    lemma_u64_from_bytes(u1.reward, u2.reward);
    lemma_u64_from_bytes(u1.match1, u2.match1);
    lemma_u64_from_bytes(u1.match2, u2.match2);
    lemma_u64_from_bytes(u1.match3, u2.match3);
    lemma_u64_from_bytes(u1.match4, u2.match4);
    lemma_u64_from_bytes(u1.match5, u2.match5);
    lemma_u64_from_bytes(u1.match6, u2.match6);
}

/// A decoded ticket record agrees with the one `stored_user` names.
pub proof fn lemma_stored_user(u: UserData, d: Seq<u8>)
    requires
        u.wf(),
        user_bytes(u) == d.take(77 + 14 * u.shots@.len() as int),
        d.len() >= USER_LEN,
    ensures
        same_user(u, stored_user(d)),
        stored_user(d).wf(),
{
    let s = stored_user(d);
    assert(s.wf() && user_bytes(s) == d.take(77 + 14 * s.shots@.len() as int));
    lemma_user_bytes_injective(u, s, d);
}

pub(crate) proof fn lemma_take_split(d: Seq<u8>, a: int, b: int)
    requires
        0 <= a <= b <= d.len(),
    ensures
        d.take(b) == d.take(a) + d.subrange(a, b),
{
    assert(d.take(b) =~= d.take(a) + d.subrange(a, b));
}

proof fn lemma_shots_bytes_len(s: Seq<([u8; 6], u64)>)
    ensures
        shots_bytes(s).len() == 14 * s.len(),
    decreases s.len(),
{
    if s.len() > 0 {
        lemma_shots_bytes_len(s.drop_last());
        lemma_auto_spec_u64_to_from_le_bytes();
    }
}

pub(crate) fn push_u64(out: &mut Vec<u8>, v: u64)
    ensures
        final(out)@ == old(out)@ + le64(v),
{
    let mut b = u64_to_le_bytes(v);
    out.append(&mut b);
}

pub(crate) fn push_address(out: &mut Vec<u8>, a: &Address)
    ensures
        final(out)@ == old(out)@ + a@,
{
    out.extend_from_slice(&a.bytes);
}

pub(crate) fn push_bool(out: &mut Vec<u8>, b: bool)
    ensures
        final(out)@ == old(out)@ + bool_byte(b),
{
    out.push(if b { 1u8 } else { 0u8 });
    assert(final(out)@ =~= old(out)@ + bool_byte(b));
}

pub(crate) fn read_u64(data: &[u8], pos: usize) -> (r: u64)
    requires
        pos + 8 <= data@.len(),
    ensures
        le64(r) == data@.subrange(pos as int, pos + 8),
{
    let len = data.len();
    proof {
        lemma_auto_spec_u64_to_from_le_bytes();
    }
    u64_from_le_bytes(slice_subrange(data, pos, pos + 8))
}

pub(crate) fn read_address(data: &[u8], pos: usize) -> (r: Address)
    requires
        pos + 32 <= data@.len(),
    ensures
        r@ == data@.subrange(pos as int, pos + 32),
{
    let len = data.len();
    let bytes: [u8; 32] = [
        data[pos + 0],
        data[pos + 1],
        data[pos + 2],
        data[pos + 3],
        data[pos + 4],
        data[pos + 5],
        data[pos + 6],
        data[pos + 7],
        data[pos + 8],
        data[pos + 9],
        data[pos + 10],
        data[pos + 11],
        data[pos + 12],
        data[pos + 13],
        data[pos + 14],
        data[pos + 15],
        data[pos + 16],
        data[pos + 17],
        data[pos + 18],
        data[pos + 19],
        data[pos + 20],
        data[pos + 21],
        data[pos + 22],
        data[pos + 23],
        data[pos + 24],
        data[pos + 25],
        data[pos + 26],
        data[pos + 27],
        data[pos + 28],
        data[pos + 29],
        data[pos + 30],
        data[pos + 31]
    ];
    let r = Address { bytes };
    assert(r@ =~= data@.subrange(pos as int, pos + 32));
    r
}

pub(crate) fn read_combo(data: &[u8], pos: usize) -> (r: [u8; 6])
    requires
        pos + 6 <= data@.len(),
    ensures
        r@ == data@.subrange(pos as int, pos + 6),
{
    let len = data.len();
    let r: [u8; 6] = [data[pos], data[pos + 1], data[pos + 2], data[pos + 3], data[pos + 4], data[pos + 5]];
    assert(r@ =~= data@.subrange(pos as int, pos + 6));
    r
}

/// The flag stored at `pos`: 0 is false, 1 is true, anything else is malformed.
pub(crate) fn read_bool(data: &[u8], pos: usize) -> (r: Result<bool, AppError>)
    requires
        pos < data@.len(),
    ensures
        data@[pos as int] <= 1 ==> r == Ok::<bool, AppError>(data@[pos as int] == 1),
        data@[pos as int] > 1 ==> r == Err::<bool, AppError>(AppError::InvalidAccountData),
        r matches Ok(b) ==> bool_byte(b) == data@.subrange(pos as int, pos + 1),
{
    let b = data[pos];
    let r = if b == 0 {
        Ok(false)
    } else if b == 1 {
        Ok(true)
    } else {
        Err(AppError::InvalidAccountData)
    };
    assert(r matches Ok(v) ==> bool_byte(v) =~= data@.subrange(pos as int, pos + 1));
    r
}

impl ConfigureData {
    /// The record's bytes.
    pub fn encode(&self) -> (r: Vec<u8>)
        ensures
            r@ == config_bytes(*self),
    {
        let mut out: Vec<u8> = Vec::new();
        push_address(&mut out, &self.authority);
        push_address(&mut out, &self.charge_addr);
        push_address(&mut out, &self.token);
        push_u64(&mut out, self.round);
        push_u64(&mut out, self.total_reward);
        push_u64(&mut out, self.allocated);
        push_u64(&mut out, self.target);
        push_u64(&mut out, self.start_time);
        push_u64(&mut out, self.total_shots);
        push_u64(&mut out, self.match1);
        push_u64(&mut out, self.match2);
        push_u64(&mut out, self.match3);
        push_u64(&mut out, self.match4);
        push_u64(&mut out, self.match5);
        push_u64(&mut out, self.match6);
        push_bool(&mut out, self.closed);
        assert(out@ =~= config_bytes(*self));
        out
    }

    /// Reads a configuration record from a slot's bytes.
    pub fn decode(data: &[u8]) -> (r: Result<ConfigureData, AppError>)
        ensures
            r is Ok <==> (data@.len() == CONFIG_LEN && data@[192] <= 1),
            r is Err ==> r == Err::<ConfigureData, AppError>(AppError::InvalidAccountData),
            r matches Ok(c) ==> config_bytes(c) == data@.take(193) && c == stored_config(data@),
    {
        if data.len() != CONFIG_LEN {
            return Err(AppError::InvalidAccountData);
        }
        let closed = match read_bool(data, 192) {
            Ok(b) => b,
            Err(e) => {
                return Err(e);
            },
        };
        let c = ConfigureData {
            authority: read_address(data, 0),
            charge_addr: read_address(data, 32),
            token: read_address(data, 64),
            round: read_u64(data, 96),
            total_reward: read_u64(data, 104),
            allocated: read_u64(data, 112),
            target: read_u64(data, 120),
            start_time: read_u64(data, 128),
            total_shots: read_u64(data, 136),
            match1: read_u64(data, 144),
            match2: read_u64(data, 152),
            match3: read_u64(data, 160),
            match4: read_u64(data, 168),
            match5: read_u64(data, 176),
            match6: read_u64(data, 184),
            closed,
        };
        proof {
            let d = data@;
            assert(d.take(32) =~= d.subrange(0, 32));
            lemma_take_split(d, 32, 64);
            lemma_take_split(d, 64, 96);
            lemma_take_split(d, 96, 104);
            lemma_take_split(d, 104, 112);
            lemma_take_split(d, 112, 120);
            lemma_take_split(d, 120, 128);
            lemma_take_split(d, 128, 136);
            lemma_take_split(d, 136, 144);
            lemma_take_split(d, 144, 152);
            lemma_take_split(d, 152, 160);
            lemma_take_split(d, 160, 168);
            lemma_take_split(d, 168, 176);
            lemma_take_split(d, 176, 184);
            lemma_take_split(d, 184, 192);
            lemma_take_split(d, 192, 193);
            lemma_stored_config(c, d);
        }
        Ok(c)
    }

    /// Reads the configuration record held by `a`.
    pub fn from_account_info(a: &AccountView) -> (r: Result<ConfigureData, AppError>)
        ensures
            r is Ok <==> (a.data@.len() == CONFIG_LEN && a.data@[192] <= 1),
            r is Err ==> r == Err::<ConfigureData, AppError>(AppError::InvalidAccountData),
            r matches Ok(c) ==> config_bytes(c) == a.data@.take(193) && c == stored_config(a.data@),
    {
        ConfigureData::decode(a.data.as_slice())
    }
}

impl RoundData {
    /// The record's bytes.
    pub fn encode(&self) -> (r: Vec<u8>)
        ensures
            r@ == round_bytes(*self),
    {
        let mut out: Vec<u8> = Vec::new();
        push_u64(&mut out, self.round);
        assert(out@ =~= round_bytes(*self));
        out
    }

    /// Reads the round counter from a slot's bytes.
    pub fn decode(data: &[u8]) -> (r: Result<RoundData, AppError>)
        ensures
            r is Ok <==> data@.len() == ROUND_LEN,
            r is Err ==> r == Err::<RoundData, AppError>(AppError::InvalidAccountData),
            r matches Ok(c) ==> round_bytes(c) == data@ && c == stored_round(data@),
    {
        if data.len() != ROUND_LEN {
            return Err(AppError::InvalidAccountData);
        }
        let round = read_u64(data, 0);
        assert(data@.subrange(0, 8) =~= data@);
        proof {
            lemma_auto_spec_u64_to_from_le_bytes();
        }
        Ok(RoundData { round })
    }

    /// Reads the round counter held by `a`.
    pub fn from_account_info(a: &AccountView) -> (r: Result<RoundData, AppError>)
        ensures
            r is Ok <==> a.data@.len() == ROUND_LEN,
            r is Err ==> r == Err::<RoundData, AppError>(AppError::InvalidAccountData),
            r matches Ok(c) ==> round_bytes(c) == a.data@ && c == stored_round(a.data@),
    {
        RoundData::decode(a.data.as_slice())
    }
}

/// The number of combinations that a ticket record's bytes announce.
pub open spec fn raw_count(d: Seq<u8>) -> nat {
    spec_u32_from_le_bytes(d.take(4)) as nat
}

/// The key of the `j`-th combination in a ticket record's bytes.
pub open spec fn raw_code(d: Seq<u8>, j: int) -> nat {
    be_value(d.subrange(4 + 14 * j, 4 + 14 * j + 6))
}

/// A ticket record's bytes are well formed: few enough combinations, in strictly
/// increasing order, and a flag byte of 0 or 1.
pub open spec fn user_layout_ok(d: Seq<u8>) -> bool {
    let n = raw_count(d);
    &&& n <= MAX_SHOTS
    &&& forall|j: int| 0 <= j && j + 1 < n ==> #[trigger] raw_code(d, j) < raw_code(d, j + 1)
    &&& d[4 + 14 * n as int + 24] <= 1
}

impl UserData {
    /// The record's bytes.
    pub fn encode(&self) -> (r: Vec<u8>)
        requires
            self.wf(),
        ensures
            r@ == user_bytes(*self),
            r@.len() == 77 + 14 * self.shots@.len(),
            r@.len() <= USER_LEN,
    {
        let mut out: Vec<u8> = u32_to_le_bytes(self.shots.len() as u32);
        let mut i: usize = 0;
        while i < self.shots.len()
            invariant
                i <= self.shots@.len(),
                out@ == spec_u32_to_le_bytes(self.shots@.len() as u32) + shots_bytes(self.shots@.take(i as int)),
            decreases self.shots@.len() - i,
        {
            let entry = self.shots[i];
            out.extend_from_slice(&entry.0);
            push_u64(&mut out, entry.1);
            proof {
                let t = self.shots@.take(i as int + 1);
                assert(t.drop_last() =~= self.shots@.take(i as int));
                assert(out@ =~= spec_u32_to_le_bytes(self.shots@.len() as u32) + shots_bytes(t));
            }
            i = i + 1;
        }
        assert(self.shots@.take(self.shots@.len() as int) =~= self.shots@);
        push_u64(&mut out, self.total_shots);
        push_u64(&mut out, self.round);
        push_u64(&mut out, self.reward);
        push_bool(&mut out, self.claimed);
        push_u64(&mut out, self.match1);
        push_u64(&mut out, self.match2);
        push_u64(&mut out, self.match3);
        push_u64(&mut out, self.match4);
        push_u64(&mut out, self.match5);
        push_u64(&mut out, self.match6);
        proof {
            lemma_auto_spec_u32_to_from_le_bytes();
            lemma_auto_spec_u64_to_from_le_bytes();
            lemma_shots_bytes_len(self.shots@);
            assert(out@ =~= user_bytes(*self));
        }
        out
    }

    /// Reads a ticket record from a slot's bytes.
    pub fn decode(data: &[u8]) -> (r: Result<UserData, AppError>)
        ensures
            r is Ok <==> (data@.len() == USER_LEN && user_layout_ok(data@)),
            r is Err ==> r == Err::<UserData, AppError>(AppError::InvalidAccountData),
            r matches Ok(u) ==> {
                &&& u.wf()
                &&& user_bytes(u) == data@.take(77 + 14 * u.shots@.len() as int)
                &&& same_user(u, stored_user(data@))
            },
    {
        if data.len() != USER_LEN {
            return Err(AppError::InvalidAccountData);
        }
        let ghost d = data@;
        proof {
            lemma_auto_spec_u32_to_from_le_bytes();
        }
        let n = u32_from_le_bytes(slice_subrange(data, 0, 4));
        assert(d.subrange(0, 4) =~= d.take(4));
        if n as usize > MAX_SHOTS {
            return Err(AppError::InvalidAccountData);
        }
        let n = n as usize;
        let mut shots: Vec<([u8; 6], u64)> = Vec::new();
        let mut last: u64 = 0;
        let mut i: usize = 0;
        while i < n
            invariant
                d == data@,
                d.len() == USER_LEN,
                n == raw_count(d),
                n <= MAX_SHOTS,
                i <= n,
                shots@.len() == i,
                shots_bytes(shots@) == d.subrange(4, 4 + 14 * i),
                shots_sorted(shots@),
                forall|j: int| 0 <= j < i ==> combo_code(#[trigger] shots@[j].0@) == raw_code(d, j),
                forall|j: int| 0 <= j && j + 1 < i ==> #[trigger] raw_code(d, j) < raw_code(d, j + 1),
                i > 0 ==> last == raw_code(d, i - 1),
            decreases n - i,
        {
            let pos = 4 + 14 * i;
            let combo = read_combo(data, pos);
            let count = read_u64(data, pos + 6);
            let code = combo_code_of(&combo);
            if i > 0 && code <= last {
                return Err(AppError::InvalidAccountData);
            }
            let ghost before = shots@;
            shots.push((combo, count));
            proof {
                assert(shots@.drop_last() =~= before);
                assert(d.subrange(4, 4 + 14 * (i + 1)) =~= d.subrange(4, 4 + 14 * i) + d.subrange(
                    pos as int,
                    pos + 6,
                ) + d.subrange(pos + 6, pos + 14));
                assert forall|a: int, b: int| 0 <= a < b < shots@.len() implies combo_code(shots@[a].0@)
                    < combo_code(shots@[b].0@) by {
                    if b == i && a + 1 < i {
                        assert(raw_code(d, a) < raw_code(d, i - 1)) by {
                            assert forall|x: int, y: int| 0 <= x < y < i implies raw_code(d, x) < raw_code(d, y) by {
                                assert(combo_code(before[x].0@) < combo_code(before[y].0@));
                            }
                        }
                    }
                }
            }
            last = code;
            i = i + 1;
        }
        let p = 4 + 14 * n;
        let claimed = match read_bool(data, p + 24) {
            Ok(b) => b,
            Err(e) => {
                return Err(e);
            },
        };
        let u = UserData {
            shots,
            total_shots: read_u64(data, p),
            round: read_u64(data, p + 8),
            reward: read_u64(data, p + 16),
            claimed,
            match1: read_u64(data, p + 25),
            match2: read_u64(data, p + 33),
            match3: read_u64(data, p + 41),
            match4: read_u64(data, p + 49),
            match5: read_u64(data, p + 57),
            match6: read_u64(data, p + 65),
        };
        proof {
            let q = p as int;
            assert(d.take(4 + 14 * n) =~= d.take(4) + d.subrange(4, 4 + 14 * n));
            lemma_take_split(d, q, q + 8);
            lemma_take_split(d, q + 8, q + 16);
            lemma_take_split(d, q + 16, q + 24);
            lemma_take_split(d, q + 24, q + 25);
            lemma_take_split(d, q + 25, q + 33);
            lemma_take_split(d, q + 33, q + 41);
            lemma_take_split(d, q + 41, q + 49);
            lemma_take_split(d, q + 49, q + 57);
            lemma_take_split(d, q + 57, q + 65);
            lemma_take_split(d, q + 65, q + 73);
            assert(spec_u32_to_le_bytes(n as u32) == d.take(4));
            assert(user_bytes(u) =~= d.take(77 + 14 * u.shots@.len() as int));
            lemma_stored_user(u, d);
        }
        Ok(u)
    }

    /// Reads the ticket record held by `a`.
    pub fn from_account_info(a: &AccountView) -> (r: Result<UserData, AppError>)
        ensures
            r is Ok <==> (a.data@.len() == USER_LEN && user_layout_ok(a.data@)),
            r is Err ==> r == Err::<UserData, AppError>(AppError::InvalidAccountData),
            r matches Ok(u) ==> {
                &&& u.wf()
                &&& user_bytes(u) == a.data@.take(77 + 14 * u.shots@.len() as int)
                &&& same_user(u, stored_user(a.data@))
            },
    {
        UserData::decode(a.data.as_slice())
    }
}

} // verus!
