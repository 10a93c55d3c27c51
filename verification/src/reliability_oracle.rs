//! Portable reputation proofs for third-party protocols.
use vstd::prelude::*;

use crate::account::Account;

verus! {

/// Version tag stamped on every proof.
pub const PROOF_VERSION: u32 = 1;

/// Score from which a member is rated excellent.
pub const RI_TIER_EXCELLENT: u32 = 850;

/// Score from which a member is rated good.
pub const RI_TIER_GOOD: u32 = 650;

/// Score from which a member is rated fair.
pub const RI_TIER_FAIR: u32 = 400;

/// Tier label derived from a member's raw RI score.
#[derive(Clone, Copy, Debug, PartialEq, Eq, Structural)]
pub enum ReputationTier {
    Excellent,
    Good,
    Fair,
    Poor,
}

/// The tier that a score falls in.
pub open spec fn tier_of(score: u32) -> ReputationTier {
    if score >= RI_TIER_EXCELLENT {
        ReputationTier::Excellent
    } else if score >= RI_TIER_GOOD {
        ReputationTier::Good
    } else if score >= RI_TIER_FAIR {
        ReputationTier::Fair
    } else {
        ReputationTier::Poor
    }
}

/// Maps a raw RI score to its tier.
pub fn score_to_tier(score: u32) -> (tier: ReputationTier)
    ensures
        tier == tier_of(score),
{
    if score >= RI_TIER_EXCELLENT {
        ReputationTier::Excellent
    } else if score >= RI_TIER_GOOD {
        ReputationTier::Good
    } else if score >= RI_TIER_FAIR {
        ReputationTier::Fair
    } else {
        ReputationTier::Poor
    }
}

} // verus!

verus! {

/// Raw reputation data stored per member.
#[derive(Clone, Copy, Debug, PartialEq, Eq, Structural)]
pub struct ReputationRecord {
    pub member: Account,
    pub ri_score: u32,
    pub total_contributions: u32,
    pub on_time_contributions: u32,
    pub defaults_count: u32,
    pub vouches_given: u32,
    pub vouches_received: u32,
    pub circles_participated: u32,
    pub last_updated: u64,
}

/// Standardised portable proof handed to third-party callers.
#[derive(Clone, Copy, Debug, PartialEq, Eq, Structural)]
pub struct ReputationProof {
    pub proof_version: u32,
    pub member: Account,
    pub ri_score: u32,
    pub tier: ReputationTier,
    pub on_time_rate_bps: u32,
    pub defaults_count: u32,
    pub circles_participated: u32,
    pub vouches_given: u32,
    pub vouches_received: u32,
    pub generated_at: u64,
    pub nonce: u32,
}

/// Share of on-time contributions in basis points, 0 when nothing was due.
pub open spec fn on_time_rate_of(on_time: u32, total: u32) -> u32 {
    if total > 0 {
        ((on_time as int) * 10_000 / (total as int)) as u32
    } else {
        0
    }
}

/// The proof that a stored record yields for `user` at `now` under `nonce`.
pub open spec fn proof_of(record: ReputationRecord, user: Account, nonce: u32, now: u64) -> ReputationProof {
    ReputationProof {
        proof_version: PROOF_VERSION,
        member: user,
        ri_score: record.ri_score,
        tier: tier_of(record.ri_score),
        on_time_rate_bps: on_time_rate_of(record.on_time_contributions, record.total_contributions),
        defaults_count: record.defaults_count,
        circles_participated: record.circles_participated,
        vouches_given: record.vouches_given,
        vouches_received: record.vouches_received,
        generated_at: now,
        nonce,
    }
}

/// What an oracle read yields: the proof and the nonce to store, or `None`
/// when no record is stored.
pub open spec fn read_outcome(
    record: Option<ReputationRecord>,
    stored_nonce: Option<u32>,
    user: Account,
    now: u64,
) -> Option<(ReputationProof, u32)> {
    match record {
        Some(r) => Some((proof_of(r, user, stored_nonce.unwrap_or(0), now), (stored_nonce.unwrap_or(0) + 1) as u32)),
        None => None,
    }
}

/// Whether a stored record reaches `min_ri`.
pub open spec fn meets_threshold(record: Option<ReputationRecord>, min_ri: u32) -> bool {
    record matches Some(r) && r.ri_score >= min_ri
}

/// Builds the record to store for `member` after a contribution cycle.
pub fn update_reputation(
    member: Account,
    ri_score: u32,
    total_contributions: u32,
    on_time_contributions: u32,
    defaults_count: u32,
    vouches_given: u32,
    vouches_received: u32,
    circles_participated: u32,
    now: u64,
) -> (record: ReputationRecord)
    ensures
        record == (ReputationRecord {
            member,
            ri_score,
            total_contributions,
            on_time_contributions,
            defaults_count,
            vouches_given,
            vouches_received,
            circles_participated,
            last_updated: now,
        }),
{
    ReputationRecord {
        member,
        ri_score,
        total_contributions,
        on_time_contributions,
        defaults_count,
        vouches_given,
        vouches_received,
        circles_participated,
        last_updated: now,
    }
}

/// Oracle read: the proof for `user`, or `None` when no record is stored.
///
/// `stored_nonce` is the proof nonce kept for `user`; on `Some((proof, next))`
/// the caller stores `next` in its place. Nothing is stored on `None`.
pub fn read_reputation(
    record: Option<ReputationRecord>,
    stored_nonce: Option<u32>,
    user: Account,
    now: u64,
) -> (res: Option<(ReputationProof, u32)>)
    requires
        record is Some ==> stored_nonce.unwrap_or(0) < u32::MAX,
    ensures
        res == read_outcome(record, stored_nonce, user, now),
{
    let record = match record {
        Some(r) => r,
        None => { return None; },
    };
    let nonce: u32 = match stored_nonce {
        Some(n) => n,
        None => 0,
    };
    let on_time_rate_bps: u32 = if record.total_contributions > 0 {
        ((record.on_time_contributions as u64) * 10_000 / (record.total_contributions as u64)) as u32
    } else {
        0
    };
    let proof = ReputationProof {
        proof_version: PROOF_VERSION,
        member: user,
        ri_score: record.ri_score,
        tier: score_to_tier(record.ri_score),
        on_time_rate_bps,
        defaults_count: record.defaults_count,
        circles_participated: record.circles_participated,
        vouches_given: record.vouches_given,
        vouches_received: record.vouches_received,
        generated_at: now,
        nonce,
    };
    Some((proof, nonce + 1))
}

/// Whether `user` has a stored record whose score is at least `min_ri`.
///
/// Like the oracle read it goes through, it hands back the nonce to store
/// when a record exists.
pub fn meets_reputation_threshold(
    record: Option<ReputationRecord>,
    stored_nonce: Option<u32>,
    user: Account,
    min_ri: u32,
    now: u64,
) -> (res: (bool, Option<u32>))
    requires
        record is Some ==> stored_nonce.unwrap_or(0) < u32::MAX,
    ensures
        res.0 == meets_threshold(record, min_ri),
        res.1 == (match record {
            Some(_) => Some((stored_nonce.unwrap_or(0) + 1) as u32),
            None => None,
        }),
{
    match read_reputation(record, stored_nonce, user, now) {
        Some((proof, next)) => (proof.ri_score >= min_ri, Some(next)),
        None => (false, None),
    }
}

/// Successive reads of one record give consecutive nonces, each proof
/// standing for the same record, and a read stores the nonce that the next
/// read hands out.
pub proof fn lemma_nonces_consecutive(record: ReputationRecord, stored_nonce: Option<u32>, user: Account, t1: u64, t2: u64)
    requires
        stored_nonce.unwrap_or(0) + 1 < u32::MAX,
    ensures
        read_outcome(Some(record), stored_nonce, user, t1) matches Some((p1, next))
            && read_outcome(Some(record), Some(next), user, t2) matches Some((p2, _))
            && p2.nonce == p1.nonce + 1
            && p1.nonce == stored_nonce.unwrap_or(0)
            && p1.ri_score == p2.ri_score
            && p1.on_time_rate_bps == p2.on_time_rate_bps,
{
}

/// The threshold check is monotone in the minimum score, and a zero minimum
/// asks only whether a record exists.
pub proof fn lemma_threshold_monotone(record: Option<ReputationRecord>, min_a: u32, min_b: u32)
    requires
        min_a <= min_b,
    ensures
        meets_threshold(record, min_b) ==> meets_threshold(record, min_a),
        meets_threshold(record, 0) == (record is Some),
{
}

/// Rank of a tier, from `Poor` (0) to `Excellent` (3).
pub open spec fn tier_rank(tier: ReputationTier) -> int {
    match tier {
        ReputationTier::Poor => 0,
        ReputationTier::Fair => 1,
        ReputationTier::Good => 2,
        ReputationTier::Excellent => 3,
    }
}

/// A higher score never lands in a lower tier.
pub proof fn lemma_tier_monotone(a: u32, b: u32)
    requires
        a <= b,
    ensures
        tier_rank(tier_of(a)) <= tier_rank(tier_of(b)),
{
}

/// The on-time rate is a share: at most 10 000 bps while on-time
/// contributions do not outnumber the total.
pub proof fn lemma_on_time_rate_bounded(on_time: u32, total: u32)
    requires
        on_time <= total,
    ensures
        on_time_rate_of(on_time, total) <= 10_000,
{
    if total > 0 {
        assert((on_time as int) * 10_000 / (total as int) <= 10_000) by (nonlinear_arith)
            requires on_time <= total, total > 0;
    }
}

} // verus!
