//! Early-bird bonus: members who contribute at least a day before the round
//! deadline earn extra RI points and a weight bonus in the pot ordering.
use vstd::prelude::*;

use crate::account::Account;

verus! {

/// Seconds before the deadline from which a contribution counts as early.
pub const EARLY_BIRD_THRESHOLD_SECS: u64 = 86_400;

/// Base RI points awarded for any on-time contribution.
pub const BASE_RI_AWARD: u32 = 10;

/// RI points awarded on top of the base for an early contribution.
pub const EARLY_BIRD_BONUS_RI: u32 = 15;

/// Weight bonus of an early contribution, in basis points.
pub const EARLY_BIRD_WEIGHT_BONUS_BPS: u32 = 500;

/// Record of a single member's contribution timing within a round.
#[derive(Clone, Copy, Debug, PartialEq, Eq, Structural)]
pub struct EarlyBirdRecord {
    pub member: Account,
    pub circle_id: u64,
    pub round: u32,
    pub contributed_at: u64,
    pub deadline: u64,
    pub seconds_early: u64,
    pub is_early_bird: bool,
    pub ri_awarded: u32,
    pub weight_bonus_bps: u32,
}

/// Aggregate stats for all contributions of a round.
#[derive(Clone, Copy, Debug, PartialEq, Eq, Structural)]
pub struct EarlyBirdRoundStats {
    pub circle_id: u64,
    pub round: u32,
    pub total_contributors: u32,
    pub early_bird_count: u32,
    pub total_bonus_ri_distributed: u32,
}

/// Why a contribution cannot be recorded.
#[derive(Clone, Copy, Debug, PartialEq, Eq, Structural)]
pub enum EarlyBirdRefusal {
    PastDeadline,
}

/// The text that goes with each value.
pub open spec fn early_bird_refusal_message(v: EarlyBirdRefusal) -> Seq<char> {
    match v {
        EarlyBirdRefusal::PastDeadline => "Contribution is past the deadline"@,
    }
}

impl EarlyBirdRefusal {
    /// The message with which the contract aborts for this refusal.
    pub fn message(&self) -> (m: &'static str)
        ensures
            m@ == early_bird_refusal_message(*self),
    {
        match self {
            EarlyBirdRefusal::PastDeadline => "Contribution is past the deadline",
        }
    }
}

/// Whether a contribution at `now` is early for `deadline`.
pub open spec fn is_early(now: u64, deadline: u64) -> bool {
    now <= deadline && deadline - now >= EARLY_BIRD_THRESHOLD_SECS
}

/// (RI points, weight bonus) that a contribution at `now` earns.
pub open spec fn bonus_at(now: u64, deadline: u64) -> (u32, u32) {
    if is_early(now, deadline) {
        ((BASE_RI_AWARD + EARLY_BIRD_BONUS_RI) as u32, EARLY_BIRD_WEIGHT_BONUS_BPS)
    } else {
        (BASE_RI_AWARD, 0)
    }
}

/// The record of a contribution made at `now`, no later than `deadline`.
pub open spec fn record_at(member: Account, circle_id: u64, round: u32, deadline: u64, now: u64) -> EarlyBirdRecord {
    EarlyBirdRecord {
        member,
        circle_id,
        round,
        contributed_at: now,
        deadline,
        seconds_early: if is_early(now, deadline) { (deadline - now) as u64 } else { 0 },
        is_early_bird: is_early(now, deadline),
        ri_awarded: bonus_at(now, deadline).0,
        weight_bonus_bps: bonus_at(now, deadline).1,
    }
}

/// Round stats after one more contribution, early or not.
pub open spec fn stats_after(prior: Option<EarlyBirdRoundStats>, circle_id: u64, round: u32, early: bool) -> EarlyBirdRoundStats {
    let s = match prior {
        Some(s) => s,
        None => EarlyBirdRoundStats {
            circle_id,
            round,
            total_contributors: 0,
            early_bird_count: 0,
            total_bonus_ri_distributed: 0,
        },
    };
    EarlyBirdRoundStats {
        total_contributors: (s.total_contributors + 1) as u32,
        early_bird_count: if early { (s.early_bird_count + 1) as u32 } else { s.early_bird_count },
        total_bonus_ri_distributed: if early {
            (s.total_bonus_ri_distributed + EARLY_BIRD_BONUS_RI) as u32
        } else {
            s.total_bonus_ri_distributed
        },
        ..s
    }
}

/// Records a member's contribution at `now` and applies the early-bird bonus.
///
/// `prior_stats` are the round's stored stats, if any. On success the result
/// holds the contribution record and the round stats to store.
pub fn record_contribution_with_bonus(
    member: Account,
    circle_id: u64,
    round: u32,
    deadline_timestamp: u64,
    now: u64,
    prior_stats: Option<EarlyBirdRoundStats>,
) -> (res: Result<(EarlyBirdRecord, EarlyBirdRoundStats), EarlyBirdRefusal>)
    requires
        now <= deadline_timestamp ==> (prior_stats matches Some(s) ==> s.total_contributors < u32::MAX
            && (is_early(now, deadline_timestamp) ==> s.early_bird_count < u32::MAX
                && s.total_bonus_ri_distributed + EARLY_BIRD_BONUS_RI <= u32::MAX)),
    ensures
        now > deadline_timestamp ==> res == Err::<(EarlyBirdRecord, EarlyBirdRoundStats), EarlyBirdRefusal>(
            EarlyBirdRefusal::PastDeadline,
        ),
        now <= deadline_timestamp ==> res == Ok::<(EarlyBirdRecord, EarlyBirdRoundStats), EarlyBirdRefusal>((
            record_at(member, circle_id, round, deadline_timestamp, now),
            stats_after(prior_stats, circle_id, round, is_early(now, deadline_timestamp)),
        )),
{
    if now > deadline_timestamp {
        return Err(EarlyBirdRefusal::PastDeadline);
    }
    let time_remaining = deadline_timestamp - now;
    let is_early_bird = time_remaining >= EARLY_BIRD_THRESHOLD_SECS;
    let seconds_early = if is_early_bird { time_remaining } else { 0 };
    let ri_awarded = BASE_RI_AWARD + if is_early_bird { EARLY_BIRD_BONUS_RI } else { 0 };
    let weight_bonus_bps = if is_early_bird { EARLY_BIRD_WEIGHT_BONUS_BPS } else { 0 };
    let record = EarlyBirdRecord {
        member,
        circle_id,
        round,
        contributed_at: now,
        deadline: deadline_timestamp,
        seconds_early,
        is_early_bird,
        ri_awarded,
        weight_bonus_bps,
    };
    let mut stats = match prior_stats {
        Some(s) => s,
        None => EarlyBirdRoundStats {
            circle_id,
            round,
            total_contributors: 0,
            early_bird_count: 0,
            total_bonus_ri_distributed: 0,
        },
    };
    stats.total_contributors = stats.total_contributors + 1;
    if is_early_bird {
        stats.early_bird_count = stats.early_bird_count + 1;
        stats.total_bonus_ri_distributed = stats.total_bonus_ri_distributed + EARLY_BIRD_BONUS_RI;
    }
    Ok((record, stats))
}

/// The (RI points, weight bonus) a contribution made at `now` would earn.
pub fn estimate_bonus(deadline_timestamp: u64, now: u64) -> (res: (u32, u32))
    ensures
        res == (if now >= deadline_timestamp { (BASE_RI_AWARD, 0u32) } else { bonus_at(now, deadline_timestamp) }),
{
    if now >= deadline_timestamp {
        return (BASE_RI_AWARD, 0);
    }
    let time_remaining = deadline_timestamp - now;
    if time_remaining >= EARLY_BIRD_THRESHOLD_SECS {
        (BASE_RI_AWARD + EARLY_BIRD_BONUS_RI, EARLY_BIRD_WEIGHT_BONUS_BPS)
    } else {
        (BASE_RI_AWARD, 0)
    }
}

/// The estimate matches what recording the contribution at the same moment
/// awards, whenever the contribution is accepted.
pub proof fn lemma_estimate_matches_record(member: Account, circle_id: u64, round: u32, deadline: u64, now: u64)
    requires
        now <= deadline,
    ensures
        ({
            let r = record_at(member, circle_id, round, deadline, now);
            let e = if now >= deadline { (BASE_RI_AWARD, 0u32) } else { bonus_at(now, deadline) };
            e == (r.ri_awarded, r.weight_bonus_bps)
        }),
{
}

/// The round stats stay consistent: they stay those of their circle and
/// round, early birds are among the contributors, and the bonus handed out is
/// the bonus per early bird times their count.
pub proof fn lemma_round_stats_consistent(
    prior: Option<EarlyBirdRoundStats>,
    circle_id: u64,
    round: u32,
    early: bool,
)
    requires
        prior matches Some(s) ==> s.circle_id == circle_id && s.round == round
            && s.early_bird_count <= s.total_contributors
            && s.total_bonus_ri_distributed == EARLY_BIRD_BONUS_RI * s.early_bird_count
            && s.total_contributors < u32::MAX
            && s.total_bonus_ri_distributed + EARLY_BIRD_BONUS_RI <= u32::MAX,
    ensures
        ({
            let t = stats_after(prior, circle_id, round, early);
            &&& t.circle_id == circle_id
            &&& t.round == round
            &&& t.early_bird_count <= t.total_contributors
            &&& t.total_bonus_ri_distributed == EARLY_BIRD_BONUS_RI * t.early_bird_count
            &&& t.total_contributors == (match prior { Some(s) => s.total_contributors, None => 0u32 }) + 1
        }),
{
}

} // verus!
