use vstd::prelude::*;

use crate::address::Address;
use crate::digest::{be_value, common_prefix, count_matching_elements_until_difference, digits_of, six_digits};
use crate::error::AppError;
use crate::state::{
    allocation, claim_amount, reward_amount, total_allocation, ConfigureData, UserData, MAX_SHOTS,
};

verus! {

/// The key under which a combination is counted: its bytes read as a big-endian number.
pub open spec fn combo_code(c: Seq<u8>) -> nat {
    be_value(c)
}

/// How many tickets `shots` records for the combination whose key is `k`.
pub open spec fn shot_count(shots: Seq<([u8; 6], u64)>, k: nat) -> nat
    decreases shots.len(),
{
    if shots.len() == 0 {
        0
    } else {
        shot_count(shots.drop_last(), k) + if combo_code(shots.last().0@) == k {
            shots.last().1 as nat
        } else {
            0
        }
    }
}

/// The combinations of `shots` strictly increase, so none repeats.
pub open spec fn shots_sorted(shots: Seq<([u8; 6], u64)>) -> bool {
    forall|i: int, j: int| 0 <= i < j < shots.len() ==> combo_code(shots[i].0@) < combo_code(shots[j].0@)
}

/// `shots` holds no entry for the key `k`.
pub open spec fn shots_lack(shots: Seq<([u8; 6], u64)>, k: nat) -> bool {
    forall|i: int| 0 <= i < shots.len() ==> combo_code(#[trigger] shots[i].0@) != k
}

impl UserData {
    /// Well-formed: combinations unique and ordered, and few enough for the slot.
    pub open spec fn wf(&self) -> bool {
        &&& shots_sorted(self.shots@)
        &&& self.shots@.len() <= MAX_SHOTS
    }

    /// The empty ticket record.
    pub fn zeroed() -> (r: UserData)
        ensures
            r.wf(),
            r.shots@.len() == 0,
            r.total_shots == 0 && r.round == 0 && r.reward == 0 && !r.claimed,
            r.match1 == 0 && r.match2 == 0 && r.match3 == 0,
            r.match4 == 0 && r.match5 == 0 && r.match6 == 0,
    {
        UserData {
            shots: Vec::new(),
            total_shots: 0,
            round: 0,
            reward: 0,
            claimed: false,
            match1: 0,
            match2: 0,
            match3: 0,
            match4: 0,
            match5: 0,
            match6: 0,
        }
    }

    /// How many tickets this record holds for `combo`.
    pub fn shot_count(&self, combo: &[u8; 6]) -> (r: u64)
        requires
            self.wf(),
        ensures
            r == shot_count(self.shots@, combo_code(combo@)),
    {
        let k = combo_code_of(combo);
        let mut i: usize = 0;
        while i < self.shots.len()
            invariant
                i <= self.shots@.len(),
                shots_sorted(self.shots@),
                k == combo_code(combo@),
                forall|j: int| 0 <= j < i ==> combo_code(#[trigger] self.shots@[j].0@) != k,
            decreases self.shots@.len() - i,
        {
            let entry = self.shots[i];
            let ki = combo_code_of(&entry.0);
            if ki == k {
                proof {
                    lemma_count_at(self.shots@, i as int);
                }
                return entry.1;
            }
            i = i + 1;
        }
        proof {
            lemma_count_absent(self.shots@, k as nat);
        }
        0
    }
}

impl ConfigureData {
    /// The configuration record of a slot that was just allocated.
    pub fn zeroed() -> (r: ConfigureData)
        ensures
            is_zero_config(r),
    {
        ConfigureData {
            authority: Address::zero(),
            charge_addr: Address::zero(),
            token: Address::zero(),
            round: 0,
            total_reward: 0,
            allocated: 0,
            target: 0,
            start_time: 0,
            total_shots: 0,
            match1: 0,
            match2: 0,
            match3: 0,
            match4: 0,
            match5: 0,
            match6: 0,
            closed: false,
        }
    }
}

/// The configuration record of a slot that was just allocated: all bytes zero.
pub open spec fn is_zero_config(c: ConfigureData) -> bool {
    &&& c.authority@ == Seq::new(32, |i: int| 0u8)
    &&& c.charge_addr@ == Seq::new(32, |i: int| 0u8)
    &&& c.token@ == Seq::new(32, |i: int| 0u8)
    &&& c.round == 0 && c.total_reward == 0 && c.allocated == 0 && c.target == 0
    &&& c.start_time == 0 && c.total_shots == 0
    &&& c.match1 == 0 && c.match2 == 0 && c.match3 == 0
    &&& c.match4 == 0 && c.match5 == 0 && c.match6 == 0
    &&& !c.closed
}

pub open spec fn pow256(k: nat) -> nat
    decreases k,
{
    if k == 0 {
        1
    } else {
        256 * pow256((k - 1) as nat)
    }
}

/// The key of a combination.
pub fn combo_code_of(c: &[u8; 6]) -> (r: u64)
    ensures
        r == combo_code(c@),
{
    let mut acc: u64 = 0;
    let mut i: usize = 0;
    while i < 6
        invariant
            i <= 6,
            c@.len() == 6,
            acc == be_value(c@.take(i as int)),
            acc < pow256(i as nat),
        decreases 6 - i,
    {
        proof {
            assert(c@.take(i as int + 1).drop_last() =~= c@.take(i as int));
            reveal_with_fuel(pow256, 7);
            assert(pow256(i as nat + 1) <= 281474976710656);
        }
        acc = acc * 256 + c[i] as u64;
        i = i + 1;
    }
    assert(c@.take(6) =~= c@);
    acc
}

proof fn lemma_count_concat(a: Seq<([u8; 6], u64)>, b: Seq<([u8; 6], u64)>, k: nat)
    ensures
        shot_count(a + b, k) == shot_count(a, k) + shot_count(b, k),
    decreases b.len(),
{
    if b.len() == 0 {
        assert(a + b =~= a);
    } else {
        lemma_count_concat(a, b.drop_last(), k);
        assert((a + b).drop_last() =~= a + b.drop_last());
    }
}

proof fn lemma_count_single(e: ([u8; 6], u64), k: nat)
    ensures
        shot_count(seq![e], k) == if combo_code(e.0@) == k {
            e.1 as nat
        } else {
            0
        },
{
    assert(seq![e].drop_last() =~= Seq::<([u8; 6], u64)>::empty());
    assert(seq![e].last() == e);
    assert(shot_count(Seq::<([u8; 6], u64)>::empty(), k) == 0);
}

proof fn lemma_count_absent(s: Seq<([u8; 6], u64)>, k: nat)
    requires
        shots_lack(s, k),
    ensures
        shot_count(s, k) == 0,
    decreases s.len(),
{
    if s.len() > 0 {
        assert(combo_code(s[s.len() - 1].0@) != k);
        lemma_count_absent(s.drop_last(), k);
    }
}

/// In sorted shots, the count of an entry's key is that entry's count.
proof fn lemma_count_at(s: Seq<([u8; 6], u64)>, i: int)
    requires
        shots_sorted(s),
        0 <= i < s.len(),
    ensures
        shot_count(s, combo_code(s[i].0@)) == s[i].1,
{
    let k = combo_code(s[i].0@);
    assert(s =~= s.take(i) + seq![s[i]] + s.skip(i + 1));
    lemma_count_concat(s.take(i) + seq![s[i]], s.skip(i + 1), k);
    lemma_count_concat(s.take(i), seq![s[i]], k);
    lemma_count_single(s[i], k);
    assert(shots_lack(s.take(i), k));
    assert(shots_lack(s.skip(i + 1), k)) by {
        assert forall|j: int| 0 <= j < s.skip(i + 1).len() implies combo_code(#[trigger] s.skip(i + 1)[j].0@) != k by {
            assert(s.skip(i + 1)[j] == s[i + 1 + j]);
        }
    }
    lemma_count_absent(s.take(i), k);
    lemma_count_absent(s.skip(i + 1), k);
}

proof fn lemma_update_keeps(s0: Seq<([u8; 6], u64)>, i: int, s1: Seq<([u8; 6], u64)>, k: nat, num: u64)
    requires
        shots_sorted(s0),
        0 <= i < s0.len(),
        combo_code(s0[i].0@) == k,
        s0[i].1 + num <= u64::MAX,
        s1 == s0.update(i, (s0[i].0, (s0[i].1 + num) as u64)),
    ensures
        shots_sorted(s1),
        forall|j: nat| #[trigger] shot_count(s1, j) == shot_count(s0, j) + if j == k {
            num as nat
        } else {
            0
        },
{
    assert(s0 =~= s0.take(i) + seq![s0[i]] + s0.skip(i + 1));
    assert(s1 =~= s0.take(i) + seq![s1[i]] + s0.skip(i + 1));
    assert forall|j: nat| #[trigger] shot_count(s1, j) == shot_count(s0, j) + if j == k {
        num as nat
    } else {
        0
    } by {
        lemma_count_concat(s0.take(i) + seq![s0[i]], s0.skip(i + 1), j);
        lemma_count_concat(s0.take(i), seq![s0[i]], j);
        lemma_count_single(s0[i], j);
        lemma_count_concat(s0.take(i) + seq![s1[i]], s0.skip(i + 1), j);
        lemma_count_concat(s0.take(i), seq![s1[i]], j);
        lemma_count_single(s1[i], j);
    }
    assert forall|a: int, b: int| 0 <= a < b < s1.len() implies combo_code(s1[a].0@) < combo_code(s1[b].0@) by {
        assert(s1[a].0 == s0[a].0);
        assert(s1[b].0 == s0[b].0);
    }
}

proof fn lemma_insert_keeps(s0: Seq<([u8; 6], u64)>, i: int, combo: [u8; 6], num: u64, k: nat)
    requires
        shots_sorted(s0),
        0 <= i <= s0.len(),
        combo_code(combo@) == k,
        forall|j: int| 0 <= j < i ==> combo_code(#[trigger] s0[j].0@) < k,
        i < s0.len() ==> combo_code(s0[i].0@) > k,
    ensures
        shots_sorted(s0.insert(i, (combo, num))),
        forall|j: nat| #[trigger] shot_count(s0.insert(i, (combo, num)), j) == shot_count(s0, j) + if j == k {
            num as nat
        } else {
            0
        },
{
    let e = (combo, num);
    let s1 = s0.insert(i, e);
    assert(s0 =~= s0.take(i) + s0.skip(i));
    assert(s1 =~= s0.take(i) + seq![e] + s0.skip(i));
    assert forall|j: nat| #[trigger] shot_count(s1, j) == shot_count(s0, j) + if j == k {
        num as nat
    } else {
        0
    } by {
        lemma_count_concat(s0.take(i), s0.skip(i), j);
        lemma_count_concat(s0.take(i) + seq![e], s0.skip(i), j);
        lemma_count_concat(s0.take(i), seq![e], j);
        lemma_count_single(e, j);
    }
    assert forall|a: int, b: int| 0 <= a < b < s1.len() implies combo_code(s1[a].0@) < combo_code(s1[b].0@) by {
        if b < i {
        } else if b == i {
        } else if a <= i {
            assert(s1[b] == s0[b - 1]);
            if b - 1 > i {
                assert(combo_code(s0[i].0@) < combo_code(s0[b - 1].0@));
            }
        } else {
            assert(s1[a] == s0[a - 1]);
            assert(s1[b] == s0[b - 1]);
        }
    }
}

/// The tier of a combination against a round's target: the number of leading digits that
/// agree.
pub open spec fn purchase_tier(target: u64, combo: Seq<u8>) -> nat {
    common_prefix(combo, six_digits(target as nat))
}

/// Tickets can be bought: the round has started and is not closed.
pub open spec fn sale_open(c: ConfigureData, now: u64) -> bool {
    c.start_time <= now && !c.closed
}

/// `c` with `n` more tickets in tier `t` (no tier for `t` outside 1 to 6).
pub open spec fn config_add_tier(c: ConfigureData, t: nat, n: u64) -> ConfigureData {
    ConfigureData {
        match1: if t == 1 { (c.match1 + n) as u64 } else { c.match1 },
        match2: if t == 2 { (c.match2 + n) as u64 } else { c.match2 },
        match3: if t == 3 { (c.match3 + n) as u64 } else { c.match3 },
        match4: if t == 4 { (c.match4 + n) as u64 } else { c.match4 },
        match5: if t == 5 { (c.match5 + n) as u64 } else { c.match5 },
        match6: if t == 6 { (c.match6 + n) as u64 } else { c.match6 },
        ..c
    }
}

/// `u` with `n` more tickets in tier `t` (no tier for `t` outside 1 to 6).
pub open spec fn user_add_tier(u: UserData, t: nat, n: u64) -> UserData {
    UserData {
        match1: if t == 1 { (u.match1 + n) as u64 } else { u.match1 },
        match2: if t == 2 { (u.match2 + n) as u64 } else { u.match2 },
        match3: if t == 3 { (u.match3 + n) as u64 } else { u.match3 },
        match4: if t == 4 { (u.match4 + n) as u64 } else { u.match4 },
        match5: if t == 5 { (u.match5 + n) as u64 } else { u.match5 },
        match6: if t == 6 { (u.match6 + n) as u64 } else { u.match6 },
        ..u
    }
}

/// Some total of a purchase would not fit in 64 bits.
pub open spec fn purchase_overflows(c: ConfigureData, u: UserData, combo: Seq<u8>, num: u64) -> bool {
    let t = purchase_tier(c.target, combo);
    ||| c.total_shots + num > u64::MAX
    ||| u.total_shots + num > u64::MAX
    ||| shot_count(u.shots@, combo_code(combo)) + num > u64::MAX
    ||| (1 <= t <= 6 && crate::state::tier_count(c, t as int) + num > u64::MAX)
    ||| (1 <= t <= 6 && crate::state::user_tier_count(u, t as int) + num > u64::MAX)
}

/// A new combination would not fit in the ticket record's slot.
pub open spec fn purchase_full(u: UserData, combo: Seq<u8>) -> bool {
    shots_lack(u.shots@, combo_code(combo)) && u.shots@.len() >= MAX_SHOTS
}

/// `c1` and `u1` are `c0` and `u0` after `num` tickets on `combo`.
pub open spec fn purchase_post(
    c0: ConfigureData,
    u0: UserData,
    c1: ConfigureData,
    u1: UserData,
    combo: Seq<u8>,
    num: u64,
) -> bool {
    let t = purchase_tier(c0.target, combo);
    let k = combo_code(combo);
    &&& !purchase_overflows(c0, u0, combo, num)
    &&& c1 == (ConfigureData { total_shots: (c0.total_shots + num) as u64, ..config_add_tier(c0, t, num) })
    &&& u1 == (UserData {
        shots: u1.shots,
        total_shots: (u0.total_shots + num) as u64,
        round: c0.round,
        ..user_add_tier(u0, t, num)
    })
    &&& u1.wf()
    &&& forall|j: nat| #[trigger] shot_count(u1.shots@, j) == shot_count(u0.shots@, j) + if j == k {
        num as nat
    } else {
        0
    }
}

fn add_tier(config: &mut ConfigureData, user: &mut UserData, t: usize, n: u64)
    requires
        1 <= t <= 6 ==> crate::state::tier_count(*old(config), t as int) + n <= u64::MAX,
        1 <= t <= 6 ==> crate::state::user_tier_count(*old(user), t as int) + n <= u64::MAX,
    ensures
        *final(config) == config_add_tier(*old(config), t as nat, n),
        *final(user) == user_add_tier(*old(user), t as nat, n),
{
    if t == 1 {
        config.match1 = config.match1 + n;
        user.match1 = user.match1 + n;
    } else if t == 2 {
        config.match2 = config.match2 + n;
        user.match2 = user.match2 + n;
    } else if t == 3 {
        config.match3 = config.match3 + n;
        user.match3 = user.match3 + n;
    } else if t == 4 {
        config.match4 = config.match4 + n;
        user.match4 = user.match4 + n;
    } else if t == 5 {
        config.match5 = config.match5 + n;
        user.match5 = user.match5 + n;
    } else if t == 6 {
        config.match6 = config.match6 + n;
        user.match6 = user.match6 + n;
    }
}

fn tier_room(config: &ConfigureData, user: &UserData, t: usize, n: u64) -> (r: bool)
    ensures
        r == (1 <= t <= 6 ==> (crate::state::tier_count(*config, t as int) + n <= u64::MAX
            && crate::state::user_tier_count(*user, t as int) + n <= u64::MAX)),
{
    let (a, b) = if t == 1 {
        (config.match1, user.match1)
    } else if t == 2 {
        (config.match2, user.match2)
    } else if t == 3 {
        (config.match3, user.match3)
    } else if t == 4 {
        (config.match4, user.match4)
    } else if t == 5 {
        (config.match5, user.match5)
    } else if t == 6 {
        (config.match6, user.match6)
    } else {
        return true;
    };
    a <= u64::MAX - n && b <= u64::MAX - n
}

/// Records `num` tickets on `combo` in the round `config` for the ticket record `user`,
/// at the time `now`. The combination's tier is the number of its leading digits that
/// agree with the round's target; the tier counts of the round and of the user grow by
/// `num` (a combination with no leading digit in common counts in no tier).
///
/// Tier accrual at purchase time is a deliberate design decision: without it the tier
/// counts that CloseRound and Claim divide by would stay zero and every claim would pay
/// nothing. Leaving it out would change the economics of every round, so it is part of
/// the purchase and covered by this contract.
pub fn record_purchase(config: &mut ConfigureData, user: &mut UserData, combo: [u8; 6], num: u64, now: u64) -> (r: Result<(), AppError>)
    requires
        old(user).wf(),
    ensures
        !sale_open(*old(config), now) ==> r == Err::<(), AppError>(AppError::SaleNotOpen),
        sale_open(*old(config), now) && purchase_overflows(*old(config), *old(user), combo@, num)
            ==> r == Err::<(), AppError>(AppError::ArithmeticOverflow),
        sale_open(*old(config), now) && !purchase_overflows(*old(config), *old(user), combo@, num)
            && purchase_full(*old(user), combo@) ==> r == Err::<(), AppError>(AppError::AccountDataTooSmall),
        sale_open(*old(config), now) && !purchase_overflows(*old(config), *old(user), combo@, num)
            && !purchase_full(*old(user), combo@) ==> r is Ok,
        r is Err ==> *final(config) == *old(config) && *final(user) == *old(user),
        r is Ok ==> purchase_post(*old(config), *old(user), *final(config), *final(user), combo@, num),
        final(config).closed == old(config).closed,
        final(user).wf(),
{
    if config.start_time > now || config.closed {
        return Err(AppError::SaleNotOpen);
    }
    let ghost c0 = *config;
    let ghost s0 = user.shots@;
    let k = combo_code_of(&combo);
    let mut i: usize = 0;
    while i < user.shots.len() && combo_code_of(&user.shots[i].0) < k
        invariant
            i <= s0.len(),
            user.shots@ == s0,
            k == combo_code(combo@),
            forall|j: int| 0 <= j < i ==> combo_code(#[trigger] s0[j].0@) < k,
        decreases s0.len() - i,
    {
        i = i + 1;
    }
    let found = i < user.shots.len() && combo_code_of(&user.shots[i].0) == k;
    proof {
        if found {
            lemma_count_at(s0, i as int);
        } else {
            assert forall|j: int| 0 <= j < s0.len() implies combo_code(#[trigger] s0[j].0@) != k by {
                if j > i {
                    assert(combo_code(s0[i as int].0@) < combo_code(s0[j].0@));
                }
            }
            lemma_count_absent(s0, k as nat);
        }
    }
    let existing: u64 = if found { user.shots[i].1 } else { 0 };
    let tier = count_matching_elements_until_difference(&combo, &digits_of(config.target));
    if config.total_shots > u64::MAX - num || user.total_shots > u64::MAX - num || existing > u64::MAX - num
        || !tier_room(config, user, tier, num) {
        return Err(AppError::ArithmeticOverflow);
    }
    if !found && user.shots.len() >= MAX_SHOTS {
        return Err(AppError::AccountDataTooSmall);
    }
    if found {
        let c = user.shots[i].0;
        user.shots.set(i, (c, existing + num));
        proof {
            lemma_update_keeps(s0, i as int, user.shots@, k as nat, num);
        }
    } else {
        user.shots.insert(i, (combo, num));
        proof {
            lemma_insert_keeps(s0, i as int, combo, num, k as nat);
        }
    }
    add_tier(config, user, tier, num);
    config.total_shots = config.total_shots + num;
    user.total_shots = user.total_shots + num;
    user.round = config.round;
    proof {
        assert(tier == purchase_tier(c0.target, combo@));
    }
    Ok(())
}

/// The configuration record that opens the round after `c`.
pub open spec fn next_round_config(c: ConfigureData, target: u64, now: u64) -> ConfigureData {
    ConfigureData {
        round: (c.round + 1) as u64,
        target,
        start_time: now,
        allocated: 0,
        total_shots: 0,
        match1: 0,
        match2: 0,
        match3: 0,
        match4: 0,
        match5: 0,
        match6: 0,
        closed: false,
        ..c
    }
}

/// `c` once closed: frozen, with the allocation of the tiers that have tickets.
pub open spec fn closed_config(c: ConfigureData) -> ConfigureData {
    ConfigureData { closed: true, allocated: allocation(c) as u64, ..c }
}

/// Closes the round `config` and returns the record that opens the next round, with the
/// target `next_target` and starting at `now`.
pub fn close_round(config: &mut ConfigureData, next_target: u64, now: u64) -> (r: Result<ConfigureData, AppError>)
    ensures
        old(config).closed ==> r == Err::<ConfigureData, AppError>(AppError::RoundClosed),
        !old(config).closed && old(config).round == u64::MAX ==> r == Err::<ConfigureData, AppError>(
            AppError::ArithmeticOverflow,
        ),
        r is Err ==> *final(config) == *old(config),
        old(config).closed ==> final(config).closed,
        !old(config).closed && old(config).round < u64::MAX ==> {
            &&& r == Ok::<ConfigureData, AppError>(next_round_config(*old(config), next_target, now))
            &&& *final(config) == closed_config(*old(config))
        },
        allocation(*old(config)) <= old(config).total_reward,
{
    let allocated = total_allocation(config);
    if config.closed {
        return Err(AppError::RoundClosed);
    }
    if config.round == u64::MAX {
        return Err(AppError::ArithmeticOverflow);
    }
    let next = ConfigureData {
        round: config.round + 1,
        target: next_target,
        start_time: now,
        allocated: 0,
        total_shots: 0,
        match1: 0,
        match2: 0,
        match3: 0,
        match4: 0,
        match5: 0,
        match6: 0,
        closed: false,
        ..*config
    };
    config.closed = true;
    config.allocated = allocated;
    Ok(next)
}

/// What claiming the ticket record `u` of the round `c` gives.
pub open spec fn claim_result(c: ConfigureData, u: UserData) -> Result<u64, AppError> {
    if !c.closed {
        Err(AppError::SaleNotClosed)
    } else if u.claimed {
        Err(AppError::Claimed)
    } else if claim_amount(c, u) > u64::MAX {
        Err(AppError::ArithmeticOverflow)
    } else {
        Ok(claim_amount(c, u) as u64)
    }
}

/// The ticket record `u` once settled with `reward`.
pub open spec fn settled(u: UserData, reward: u64) -> UserData {
    UserData { claimed: true, reward, ..u }
}

/// Settles the ticket record `user` of the closed round `config`: returns the user's reward
/// and marks the record claimed.
pub fn claim_reward(config: &ConfigureData, user: &mut UserData) -> (r: Result<u64, AppError>)
    ensures
        r == claim_result(*config, *old(user)),
        r matches Ok(v) ==> *final(user) == settled(*old(user), v),
        r is Err ==> *final(user) == *old(user),
{
    if !config.closed {
        return Err(AppError::SaleNotClosed);
    }
    if user.claimed {
        return Err(AppError::Claimed);
    }
    match reward_amount(config, user) {
        Some(reward) => {
            user.claimed = true;
            user.reward = reward;
            Ok(reward)
        },
        None => Err(AppError::ArithmeticOverflow),
    }
}

/// A ticket record is settled at most once: after a claim succeeds, claiming the settled
/// record again is refused with `Claimed` and would leave its reward as it is.
pub proof fn lemma_claim_at_most_once(c: ConfigureData, u: UserData)
    ensures
        claim_result(c, u) matches Ok(v) ==> {
            &&& claim_result(c, settled(u, v)) == Err::<u64, AppError>(AppError::Claimed)
            &&& settled(u, v).reward == v
        },
{
}

/// Purchases accumulate: two purchases of `n1` and then `n2` tickets on one combination add
/// `n1 + n2` to its count and to the user's and the round's totals.
pub proof fn lemma_purchases_accumulate(
    c0: ConfigureData,
    u0: UserData,
    c1: ConfigureData,
    u1: UserData,
    c2: ConfigureData,
    u2: UserData,
    combo: Seq<u8>,
    n1: u64,
    n2: u64,
)
    requires
        purchase_post(c0, u0, c1, u1, combo, n1),
        purchase_post(c1, u1, c2, u2, combo, n2),
    ensures
        shot_count(u2.shots@, combo_code(combo)) == shot_count(u0.shots@, combo_code(combo)) + n1 + n2,
        u2.total_shots == u0.total_shots + n1 + n2,
        c2.total_shots == c0.total_shots + n1 + n2,
{
    assert(shot_count(u1.shots@, combo_code(combo)) == shot_count(u0.shots@, combo_code(combo)) + n1);
    assert(shot_count(u2.shots@, combo_code(combo)) == shot_count(u1.shots@, combo_code(combo)) + n2);
}

} // verus!
