use vstd::prelude::*;

use crate::address::Address;

verus! {

/// Arguments of Configure.
#[derive(Clone, Debug)]
pub struct ConfigureArgs {
    /// The round's administrator.
    pub authority: Address,
    /// Where ticket payments go.
    pub charge_addr: Address,
    /// The round number as canonical decimal text.
    pub round: String,
    pub start_time: u64,
    pub total_reward: u64,
}

/// The configuration record of one round.
#[derive(Clone, Copy, Debug)]
pub struct ConfigureData {
    /// The round's administrator.
    pub authority: Address,
    /// Where ticket payments go.
    pub charge_addr: Address,
    /// The reward asset.
    pub token: Address,
    pub round: u64,
    pub total_reward: u64,
    /// Reward earmarked across the tiers when the round closed.
    pub allocated: u64,
    /// The six-digit target.
    pub target: u64,
    pub start_time: u64,
    pub total_shots: u64,
    pub match1: u64,
    pub match2: u64,
    pub match3: u64,
    pub match4: u64,
    pub match5: u64,
    pub match6: u64,
    pub closed: bool,
}

/// The ticket record of one user in one round.
#[derive(Clone, Debug)]
pub struct UserData {
    /// Each combination bought, with its cumulative ticket count, in increasing order of
    /// combination and without repeats. A sorted vector rather than a hash map: the stored
    /// form lists the combinations in increasing order, and a hash map's walk order is not
    /// fixed, so the order is kept as an invariant (`UserData::wf`) instead.
    pub shots: Vec<([u8; 6], u64)>,
    pub total_shots: u64,
    pub round: u64,
    pub reward: u64,
    pub claimed: bool,
    pub match1: u64,
    pub match2: u64,
    pub match3: u64,
    pub match4: u64,
    pub match5: u64,
    pub match6: u64,
}

/// Arguments of BuyTickets.
#[derive(Clone, Copy, Debug)]
pub struct BuyTicketsArgs {
    /// The combination; `None` draws one from the clock and the buyer's identity.
    pub shot: Option<[u8; 6]>,
    pub num: u64,
}

/// Arguments of Claim.
#[derive(Clone, Copy, Debug)]
pub struct ClaimArgs {
    pub round: u64,
}

/// Arguments of Clear.
#[derive(Clone, Copy, Debug)]
pub struct ClearArgs {
    pub amt: u64,
}

/// The singleton round-counter record.
#[derive(Clone, Copy, Debug)]
pub struct RoundData {
    pub round: u64,
}

/// The most combinations that a ticket record's fixed-size slot holds.
pub const MAX_SHOTS: usize = 14;

/// Price of one ticket in the native currency's smallest unit.
pub const TICKET_PRICE: u64 = 50000000;

/// The percentage of the reward pool given to tier `t`.
pub open spec fn tier_percent(t: int) -> nat {
    if t == 1 {
        2
    } else if t == 2 {
        3
    } else if t == 3 {
        5
    } else if t == 4 {
        20
    } else if t == 5 {
        30
    } else {
        40
    }
}

/// Tier `t`'s part of the reward pool.
pub open spec fn tier_share(total_reward: u64, t: int) -> nat {
    (total_reward * tier_percent(t) / 100) as nat
}

/// The aggregate count of tier `t` of a round.
pub open spec fn tier_count(c: ConfigureData, t: int) -> u64 {
    if t == 1 {
        c.match1
    } else if t == 2 {
        c.match2
    } else if t == 3 {
        c.match3
    } else if t == 4 {
        c.match4
    } else if t == 5 {
        c.match5
    } else {
        c.match6
    }
}

/// A user's count of tier `t`.
pub open spec fn user_tier_count(u: UserData, t: int) -> u64 {
    if t == 1 {
        u.match1
    } else if t == 2 {
        u.match2
    } else if t == 3 {
        u.match3
    } else if t == 4 {
        u.match4
    } else if t == 5 {
        u.match5
    } else {
        u.match6
    }
}

/// Tier `t`'s share if the tier has any tickets.
pub open spec fn allocated_share(c: ConfigureData, t: int) -> nat {
    if tier_count(c, t) > 0 {
        tier_share(c.total_reward, t)
    } else {
        0
    }
}

/// The reward earmarked when a round closes: the share of each tier that has tickets.
pub open spec fn allocation(c: ConfigureData) -> nat {
    allocated_share(c, 1) + allocated_share(c, 2) + allocated_share(c, 3) + allocated_share(c, 4)
        + allocated_share(c, 5) + allocated_share(c, 6)
}

/// A user's reward from tier `t`: the tier's share in proportion to the user's tickets.
pub open spec fn tier_reward(c: ConfigureData, u: UserData, t: int) -> nat {
    if tier_count(c, t) > 0 {
        (tier_share(c.total_reward, t) * user_tier_count(u, t) / (tier_count(c, t) as int)) as nat
    } else {
        0
    }
}

/// A user's reward: the sum over the six tiers, each truncated on its own.
pub open spec fn claim_amount(c: ConfigureData, u: UserData) -> nat {
    tier_reward(c, u, 1) + tier_reward(c, u, 2) + tier_reward(c, u, 3) + tier_reward(c, u, 4)
        + tier_reward(c, u, 5) + tier_reward(c, u, 6)
}

fn share_of(total_reward: u64, pct: u64) -> (r: u64)
    requires
        pct <= 100,
    ensures
        r == total_reward * pct / 100,
        r * 100 <= total_reward * pct,
        r <= total_reward,
{
    assert(total_reward * pct <= total_reward * 100) by (nonlinear_arith)
        requires
            pct <= 100,
    ;
    ((total_reward as u128) * (pct as u128) / 100) as u64
}

/// The reward earmarked when the round `config` closes.
pub fn total_allocation(config: &ConfigureData) -> (r: u64)
    ensures
        r == allocation(*config),
        r <= config.total_reward,
{
    let tr = config.total_reward;
    let s1 = if config.match1 > 0 { share_of(tr, 2) } else { 0 };
    let s2 = if config.match2 > 0 { share_of(tr, 3) } else { 0 };
    let s3 = if config.match3 > 0 { share_of(tr, 5) } else { 0 };
    let s4 = if config.match4 > 0 { share_of(tr, 20) } else { 0 };
    let s5 = if config.match5 > 0 { share_of(tr, 30) } else { 0 };
    let s6 = if config.match6 > 0 { share_of(tr, 40) } else { 0 };
    assert((s1 + s2 + s3 + s4 + s5 + s6) * 100 <= tr * 100);
    s1 + s2 + s3 + s4 + s5 + s6
}

fn tier_reward_of(share: u64, user_count: u64, tier_total: u64) -> (r: u128)
    ensures
        r == (if tier_total > 0 {
            share * user_count / (tier_total as int)
        } else {
            0
        }),
{
    if tier_total == 0 {
        return 0;
    }
    assert(share * user_count <= 0xffff_ffff_ffff_ffffu64 * 0xffff_ffff_ffff_ffffu64) by (nonlinear_arith)
        requires
            share <= 0xffff_ffff_ffff_ffffu64,
            user_count <= 0xffff_ffff_ffff_ffffu64,
    ;
    (share as u128) * (user_count as u128) / (tier_total as u128)
}

/// A user's reward in the closed round `config`, or `None` where it does not fit in 64 bits.
pub fn reward_amount(config: &ConfigureData, user: &UserData) -> (r: Option<u64>)
    ensures
        r == (if claim_amount(*config, *user) <= u64::MAX {
            Some(claim_amount(*config, *user) as u64)
        } else {
            None
        }),
{
    let tr = config.total_reward;
    let t1 = tier_reward_of(share_of(tr, 2), user.match1, config.match1);
    let t2 = tier_reward_of(share_of(tr, 3), user.match2, config.match2);
    let t3 = tier_reward_of(share_of(tr, 5), user.match3, config.match3);
    let t4 = tier_reward_of(share_of(tr, 20), user.match4, config.match4);
    let t5 = tier_reward_of(share_of(tr, 30), user.match5, config.match5);
    let t6 = tier_reward_of(share_of(tr, 40), user.match6, config.match6);
    let max: u128 = 0xffff_ffff_ffff_ffff;
    if t1 > max || t2 > max || t3 > max || t4 > max || t5 > max || t6 > max {
        return None;
    }
    let sum: u128 = t1 + t2 + t3 + t4 + t5 + t6;
    if sum > max {
        None
    } else {
        Some(sum as u64)
    }
}

} // verus!
