//! Reputation of circle members: the Reliability Index (RI) points that
//! payouts, defaults and amnesties move, and the reputation metrics that
//! deposits, votes, payouts and inactivity move.
use vstd::prelude::*;

verus! {

/// Highest number of RI points.
pub const MAX_RI: u32 = 1000;

/// RI points taken from a member who defaults.
pub const RI_PENALTY: u32 = 200;

/// RI points given back by an approved amnesty.
pub const RI_RESTORE: u32 = 200;

/// RI points earned by completing a cycle.
pub const RI_CYCLE_REWARD: u32 = 50;

/// Upper end of a score in basis points.
pub const MAX_SCORE_BPS: u32 = 10_000;

/// Neutral starting score of a new member, in basis points.
pub const BASELINE_SCORE_BPS: u32 = 5000;

/// Social-capital points earned per governance vote.
pub const GOVERNANCE_VOTE_BONUS: u32 = 10;

/// Social-capital points earned by voting to grant leniency that is granted.
pub const LENIENCY_GIVEN_BONUS: u32 = 50;

/// Social-capital points earned by receiving leniency.
pub const LENIENCY_RECEIVED_BONUS: u32 = 25;

/// Length of a decay month, in seconds (30 days).
pub const DECAY_PERIOD_SECONDS: u64 = 2_592_000;

/// Inactivity after which decay applies, in seconds (6 months).
pub const INACTIVITY_THRESHOLD_SECONDS: u64 = 15_552_000;

/// Volume that earns one step of the volume bonus.
pub const VOLUME_STEP: i128 = 1_000_000;

/// A member's Reliability Index.
#[derive(Clone, Copy, Debug, PartialEq, Eq, Structural)]
pub struct ReliabilityIndex {
    pub points: u16,
    pub successful_cycles: u16,
    pub default_count: u8,
    pub last_update: u64,
}

/// A member's reputation metrics.
#[derive(Clone, Copy, Debug, PartialEq, Eq, Structural)]
pub struct UserReputationMetrics {
    pub reliability_score: u32,
    pub social_capital_score: u32,
    pub total_cycles: u32,
    pub perfect_cycles: u32,
    pub total_volume_saved: i128,
    pub last_activity: u64,
    pub last_decay: u64,
    pub on_time_contributions: u32,
    pub total_contributions: u32,
}

// --- Reliability Index ---

/// The index of a member with no stored index: full points, no history.
pub open spec fn fresh_ri(now: u64) -> ReliabilityIndex {
    ReliabilityIndex { points: MAX_RI as u16, successful_cycles: 0, default_count: 0, last_update: now }
}

/// The stored index, or a fresh one when none is stored.
pub open spec fn ri_or_fresh(stored: Option<ReliabilityIndex>, now: u64) -> ReliabilityIndex {
    match stored {
        Some(ri) => ri,
        None => fresh_ri(now),
    }
}

/// The index that a member has: the stored one, or a fresh one.
pub fn get_ri_internal(stored: Option<ReliabilityIndex>, now: u64) -> (ri: ReliabilityIndex)
    ensures
        ri == ri_or_fresh(stored, now),
{
    match stored {
        Some(ri) => ri,
        None => ReliabilityIndex { points: MAX_RI as u16, successful_cycles: 0, default_count: 0, last_update: now },
    }
}

/// `a + b`, capped at `cap`.
pub open spec fn capped_add(a: int, b: int, cap: int) -> int {
    if a + b < cap { a + b } else { cap }
}

/// The index after a completed cycle.
pub open spec fn ri_after_cycle(ri: ReliabilityIndex, now: u64) -> ReliabilityIndex {
    ReliabilityIndex {
        points: if ri.points + RI_CYCLE_REWARD < MAX_RI { (ri.points + RI_CYCLE_REWARD) as u16 } else { MAX_RI as u16 },
        successful_cycles: if ri.successful_cycles < u16::MAX { (ri.successful_cycles + 1) as u16 } else { u16::MAX },
        last_update: now,
        ..ri
    }
}

/// The index after a default.
pub open spec fn ri_after_default(ri: ReliabilityIndex, now: u64) -> ReliabilityIndex {
    ReliabilityIndex {
        points: if ri.points >= RI_PENALTY { (ri.points - RI_PENALTY) as u16 } else { 0 },
        default_count: (ri.default_count + 1) as u8,
        last_update: now,
        ..ri
    }
}

/// The index after an approved amnesty.
pub open spec fn ri_after_amnesty(ri: ReliabilityIndex) -> ReliabilityIndex {
    ReliabilityIndex {
        points: if ri.points + RI_RESTORE < MAX_RI { (ri.points + RI_RESTORE) as u16 } else { MAX_RI as u16 },
        ..ri
    }
}

/// Rewards a completed cycle: one more successful cycle (saturating) and
/// `RI_CYCLE_REWARD` points, capped at `MAX_RI`.
pub fn reward_successful_cycle(ri: ReliabilityIndex, now: u64) -> (out: ReliabilityIndex)
    ensures
        out == ri_after_cycle(ri, now),
{
    let raised: u32 = ri.points as u32 + RI_CYCLE_REWARD;
    let points: u16 = if raised < MAX_RI { raised as u16 } else { MAX_RI as u16 };
    ReliabilityIndex {
        points,
        successful_cycles: ri.successful_cycles.saturating_add(1),
        default_count: ri.default_count,
        last_update: now,
    }
}

/// Penalises a default: `RI_PENALTY` points off (not below 0), one more
/// default on record.
pub fn apply_default_penalty(ri: ReliabilityIndex, now: u64) -> (out: ReliabilityIndex)
    requires
        ri.default_count < u8::MAX,
    ensures
        out == ri_after_default(ri, now),
{
    ReliabilityIndex {
        points: ri.points.saturating_sub(RI_PENALTY as u16),
        successful_cycles: ri.successful_cycles,
        default_count: ri.default_count + 1,
        last_update: now,
    }
}

/// Restores `RI_RESTORE` points after an approved amnesty, capped at `MAX_RI`.
pub fn restore_after_amnesty(ri: ReliabilityIndex) -> (out: ReliabilityIndex)
    ensures
        out == ri_after_amnesty(ri),
{
    let raised: u32 = ri.points as u32 + RI_RESTORE;
    let points: u16 = if raised < MAX_RI { raised as u16 } else { MAX_RI as u16 };
    ReliabilityIndex { points, ..ri }
}

/// RI points never exceed `MAX_RI`: a fresh index starts within the bound and
/// every change of the index keeps it there.
pub proof fn lemma_ri_points_bounded(ri: ReliabilityIndex, now: u64)
    requires
        ri.points <= MAX_RI,
    ensures
        fresh_ri(now).points <= MAX_RI,
        ri_after_cycle(ri, now).points <= MAX_RI,
        ri_after_default(ri, now).points <= MAX_RI,
        ri_after_amnesty(ri).points <= MAX_RI,
{
}

/// An amnesty after a default gives back at least the points held before it,
/// and exactly those points when they were at least `RI_PENALTY`.
pub proof fn lemma_amnesty_undoes_penalty(ri: ReliabilityIndex, now: u64)
    requires
        ri.points <= MAX_RI,
    ensures
        ri_after_amnesty(ri_after_default(ri, now)).points >= ri.points,
        ri.points >= RI_PENALTY ==> ri_after_amnesty(ri_after_default(ri, now)).points == ri.points,
{
}

/// Completing a cycle never lowers the points; defaulting never raises them.
pub proof fn lemma_ri_direction(ri: ReliabilityIndex, now: u64)
    requires
        ri.points <= MAX_RI,
    ensures
        ri_after_cycle(ri, now).points >= ri.points,
        ri_after_default(ri, now).points <= ri.points,
{
}

// --- Reputation metrics ---

/// The metrics of a member with none stored: baseline scores, no history.
pub open spec fn fresh_metrics(now: u64) -> UserReputationMetrics {
    UserReputationMetrics {
        reliability_score: BASELINE_SCORE_BPS,
        social_capital_score: BASELINE_SCORE_BPS,
        total_cycles: 0,
        perfect_cycles: 0,
        total_volume_saved: 0,
        last_activity: now,
        last_decay: now,
        on_time_contributions: 0,
        total_contributions: 0,
    }
}

/// The stored metrics, or fresh ones when none are stored.
pub open spec fn metrics_or_fresh(stored: Option<UserReputationMetrics>, now: u64) -> UserReputationMetrics {
    match stored {
        Some(m) => m,
        None => fresh_metrics(now),
    }
}

/// The metrics a member has: the stored ones, or fresh ones.
pub fn metrics_or_default(stored: Option<UserReputationMetrics>, now: u64) -> (m: UserReputationMetrics)
    ensures
        m == metrics_or_fresh(stored, now),
{
    match stored {
        Some(m) => m,
        None => UserReputationMetrics {
            reliability_score: BASELINE_SCORE_BPS,
            social_capital_score: BASELINE_SCORE_BPS,
            total_cycles: 0,
            perfect_cycles: 0,
            total_volume_saved: 0,
            last_activity: now,
            last_decay: now,
            on_time_contributions: 0,
            total_contributions: 0,
        },
    }
}

/// Integer division rounding toward zero, as on the ledger.
pub open spec fn div_toward_zero(a: int, b: int) -> int {
    if a >= 0 { a / b } else { -((-a) / b) }
}

/// Volume bonus: 50 bps per `VOLUME_STEP` saved, at most 100 steps. A
/// negative saved volume gives a negative bonus.
pub open spec fn volume_bonus_of(volume: i128) -> int {
    let steps = div_toward_zero(volume as int, VOLUME_STEP as int);
    (if steps < 100 { steps } else { 100 }) * 50
}

/// Reliability score: on-time rate plus volume bonus, at most 10 000 bps
/// (and never below 0, the score being unsigned).
pub open spec fn reliability_score_of(on_time: u32, total: u32, volume: i128) -> u32 {
    let rate: int = if total > 0 { (on_time as int) * 10_000 / (total as int) } else { BASELINE_SCORE_BPS as int };
    let sum = rate + volume_bonus_of(volume);
    (if sum < 0 { 0 } else if sum < MAX_SCORE_BPS { sum } else { MAX_SCORE_BPS as int }) as u32
}

/// The volume bonus is worth at most 100 steps of 50 bps: the reliability
/// score never exceeds the on-time rate plus 5 000 bps, however much was
/// saved, and a volume below one step adds nothing.
pub proof fn lemma_volume_bonus_capped(on_time: u32, total: u32, volume: i128)
    requires
        total > 0,
    ensures
        volume_bonus_of(volume) <= 5000,
        reliability_score_of(on_time, total, volume) <= (on_time as int) * 10_000 / (total as int) + 5000,
        0 <= volume < VOLUME_STEP ==> volume_bonus_of(volume) == 0,
        volume >= 100 * VOLUME_STEP ==> volume_bonus_of(volume) == 5000,
{
}

/// The metrics after a deposit, on time or late, at `now`.
pub open spec fn metrics_after_deposit(m: UserReputationMetrics, was_on_time: bool, now: u64) -> UserReputationMetrics {
    let total = (m.total_contributions + 1) as u32;
    let on_time = if was_on_time { (m.on_time_contributions + 1) as u32 } else { m.on_time_contributions };
    UserReputationMetrics {
        total_contributions: total,
        on_time_contributions: on_time,
        last_activity: now,
        reliability_score: reliability_score_of(on_time, total, m.total_volume_saved),
        ..m
    }
}

/// What a deposit stores as the member's metrics: nothing when a
/// proof-of-personhood oracle is set and says the member is not verified.
pub open spec fn deposit_metrics_outcome(
    stored: Option<UserReputationMetrics>,
    verified: Option<bool>,
    was_on_time: bool,
    now: u64,
) -> Option<UserReputationMetrics> {
    if verified == Some(false) {
        None
    } else {
        Some(metrics_after_deposit(metrics_or_fresh(stored, now), was_on_time, now))
    }
}

/// Updates the member's metrics for a deposit.
///
/// `verified` is the answer of the proof-of-personhood oracle, `None` when
/// no oracle is set. The result is the metrics to store, or `None` when
/// nothing is stored.
pub fn update_reputation_on_deposit(
    stored: Option<UserReputationMetrics>,
    verified: Option<bool>,
    was_on_time: bool,
    now: u64,
) -> (res: Option<UserReputationMetrics>)
    requires
        verified != Some(false) ==> ({
            let m = metrics_or_fresh(stored, now);
            &&& m.total_contributions < u32::MAX
            &&& (if was_on_time { m.on_time_contributions + 1 } else { m.on_time_contributions as int }) * 10_000 <= u32::MAX
        }),
    ensures
        res == deposit_metrics_outcome(stored, verified, was_on_time, now),
        res matches Some(m) ==> {
            &&& m.total_contributions == metrics_or_fresh(stored, now).total_contributions + 1
            &&& m.on_time_contributions == metrics_or_fresh(stored, now).on_time_contributions + (if was_on_time { 1int } else { 0 })
            &&& m.reliability_score <= (m.on_time_contributions as int) * 10_000 / (m.total_contributions as int) + 100 * 50
            &&& m.reliability_score <= MAX_SCORE_BPS
            &&& m.last_activity == now
        },
        verified == Some(false) <==> res is None,
{
    if let Some(v) = verified {
        if !v {
            return None;
        }
    }
    let mut m = metrics_or_default(stored, now);
    m.total_contributions = m.total_contributions + 1;
    if was_on_time {
        m.on_time_contributions = m.on_time_contributions + 1;
    }
    m.last_activity = now;
    let on_time_rate: u32 = if m.total_contributions > 0 {
        (m.on_time_contributions * 10_000) / m.total_contributions
    } else {
        BASELINE_SCORE_BPS
    };
    let steps: i128 = m.total_volume_saved / VOLUME_STEP;
    let capped_steps: i128 = if steps < 100 { steps } else { 100 };
    let volume_bonus: i128 = capped_steps * 50;
    let sum: i128 = on_time_rate as i128 + volume_bonus;
    m.reliability_score = if sum < 0 {
        0
    } else if sum < MAX_SCORE_BPS as i128 {
        sum as u32
    } else {
        MAX_SCORE_BPS
    };
    Some(m)
}

/// Decay factor after `months` inactive months, in basis points: 5% off per
/// month, rounded down each month.
pub open spec fn decay_factor(months: nat) -> u64
    decreases months,
{
    if months == 0 {
        10_000
    } else {
        (decay_factor((months - 1) as nat) * 95 / 100) as u64
    }
}

/// A score scaled by a decay factor.
pub open spec fn decayed(score: u32, factor: u64) -> u32 {
    ((score as int) * (factor as int) / 10_000) as u32
}

/// What inactivity decay stores as the member's metrics at `now`, `None`
/// when no decay is due (nothing is stored then).
pub open spec fn decay_outcome(stored: Option<UserReputationMetrics>, now: u64) -> Option<UserReputationMetrics> {
    let m = metrics_or_fresh(stored, now);
    let months = (now - m.last_decay) / (DECAY_PERIOD_SECONDS as int);
    if months > 0 && now - m.last_activity > INACTIVITY_THRESHOLD_SECONDS {
        let f = decay_factor(months as nat);
        Some(UserReputationMetrics {
            reliability_score: decayed(m.reliability_score, f),
            social_capital_score: decayed(m.social_capital_score, f),
            last_decay: now,
            ..m
        })
    } else {
        None
    }
}

/// The decay factor stays within 0..=10 000 and never grows with the months.
pub proof fn lemma_decay_factor_bounded(months: nat)
    ensures
        decay_factor(months) <= 10_000,
        months > 0 ==> decay_factor(months) <= decay_factor((months - 1) as nat),
    decreases months,
{
    if months > 0 {
        lemma_decay_factor_bounded((months - 1) as nat);
    }
}

/// Applies the inactivity decay that is due at `now`.
///
/// The result is the metrics to store, `None` when no decay is due.
pub fn apply_inactivity_decay(stored: Option<UserReputationMetrics>, now: u64) -> (res: Option<UserReputationMetrics>)
    requires
        now >= metrics_or_fresh(stored, now).last_decay,
        (now - metrics_or_fresh(stored, now).last_decay) / (DECAY_PERIOD_SECONDS as int) > 0
            ==> now >= metrics_or_fresh(stored, now).last_activity,
    ensures
        res == decay_outcome(stored, now),
{
    let mut m = metrics_or_default(stored, now);
    let months: u64 = (now - m.last_decay) / DECAY_PERIOD_SECONDS;
    if months > 0 && now - m.last_activity > INACTIVITY_THRESHOLD_SECONDS {
        let mut factor: u64 = 10_000;
        let mut i: u64 = 0;
        while i < months
            invariant
                i <= months,
                factor == decay_factor(i as nat),
            decreases months - i,
        {
            proof {
                lemma_decay_factor_bounded(i as nat);
            }
            factor = factor * 95 / 100;
            i = i + 1;
        }
        proof {
            lemma_decay_factor_bounded(months as nat);
        }
        assert((m.reliability_score as u64) * factor <= (u32::MAX as u64) * 10_000) by (nonlinear_arith)
            requires factor <= 10_000;
        assert((m.social_capital_score as u64) * factor <= (u32::MAX as u64) * 10_000) by (nonlinear_arith)
            requires factor <= 10_000;
        m.reliability_score = ((m.reliability_score as u64) * factor / 10_000) as u32;
        m.social_capital_score = ((m.social_capital_score as u64) * factor / 10_000) as u32;
        m.last_decay = now;
        Some(m)
    } else {
        None
    }
}

/// Decay never raises a score.
pub proof fn lemma_decay_never_raises(score: u32, months: nat)
    ensures
        decayed(score, decay_factor(months)) <= score,
{
    lemma_decay_factor_bounded(months);
    let f = decay_factor(months);
    assert((score as int) * (f as int) / 10_000 <= score) by (nonlinear_arith)
        requires f <= 10_000;
}

/// The metrics after a governance vote at `now`.
pub open spec fn metrics_after_vote(m: UserReputationMetrics, now: u64) -> UserReputationMetrics {
    UserReputationMetrics {
        social_capital_score: capped_add(m.social_capital_score as int, GOVERNANCE_VOTE_BONUS as int, MAX_SCORE_BPS as int) as u32,
        last_activity: now,
        ..m
    }
}

/// Credits a governance vote: `GOVERNANCE_VOTE_BONUS` social-capital points,
/// capped at 10 000 bps.
pub fn record_governance_vote(stored: Option<UserReputationMetrics>, now: u64) -> (m: UserReputationMetrics)
    requires
        metrics_or_fresh(stored, now).social_capital_score + GOVERNANCE_VOTE_BONUS <= u32::MAX,
    ensures
        m == metrics_after_vote(metrics_or_fresh(stored, now), now),
{
    let mut m = metrics_or_default(stored, now);
    let raised = m.social_capital_score + GOVERNANCE_VOTE_BONUS;
    m.social_capital_score = if raised < MAX_SCORE_BPS { raised } else { MAX_SCORE_BPS };
    m.last_activity = now;
    m
}

/// The metrics after `bonus` social-capital points were credited at `now`.
pub open spec fn metrics_after_social_credit(m: UserReputationMetrics, bonus: u32, now: u64) -> UserReputationMetrics {
    UserReputationMetrics {
        social_capital_score: capped_add(m.social_capital_score as int, bonus as int, MAX_SCORE_BPS as int) as u32,
        last_activity: now,
        ..m
    }
}

/// Credits `bonus` social-capital points, capped at 10 000 bps.
pub fn credit_social_capital(stored: Option<UserReputationMetrics>, bonus: u32, now: u64) -> (m: UserReputationMetrics)
    ensures
        m == metrics_after_social_credit(metrics_or_fresh(stored, now), bonus, now),
{
    let mut m = metrics_or_default(stored, now);
    let raised: u64 = m.social_capital_score as u64 + bonus as u64;
    m.social_capital_score = if raised < MAX_SCORE_BPS as u64 { raised as u32 } else { MAX_SCORE_BPS };
    m.last_activity = now;
    m
}

/// Credits a received payout to the member's saved volume.
pub fn record_payout_volume(stored: Option<UserReputationMetrics>, payout: i128, now: u64) -> (m: UserReputationMetrics)
    requires
        i128::MIN <= metrics_or_fresh(stored, now).total_volume_saved + payout <= i128::MAX,
    ensures
        m == (UserReputationMetrics {
            total_volume_saved: (metrics_or_fresh(stored, now).total_volume_saved + payout) as i128,
            last_activity: now,
            ..metrics_or_fresh(stored, now)
        }),
{
    let mut m = metrics_or_default(stored, now);
    m.total_volume_saved = m.total_volume_saved + payout;
    m.last_activity = now;
    m
}

/// The reliability score stays within 10 000 bps.
pub proof fn lemma_reliability_score_bounded(on_time: u32, total: u32, volume: i128)
    ensures
        reliability_score_of(on_time, total, volume) <= MAX_SCORE_BPS,
{
}

/// Both sub-scores stay within 0..=10 000 bps: fresh metrics start there and
/// a deposit, a governance vote, a payout and inactivity decay all keep them
/// there.
pub proof fn lemma_scores_stay_in_range(
    m: UserReputationMetrics,
    was_on_time: bool,
    now: u64,
    stored: Option<UserReputationMetrics>,
)
    requires
        m.reliability_score <= MAX_SCORE_BPS,
        m.social_capital_score <= MAX_SCORE_BPS,
        stored matches Some(s) ==> s.reliability_score <= MAX_SCORE_BPS && s.social_capital_score <= MAX_SCORE_BPS,
    ensures
        fresh_metrics(now).reliability_score <= MAX_SCORE_BPS,
        fresh_metrics(now).social_capital_score <= MAX_SCORE_BPS,
        metrics_after_deposit(m, was_on_time, now).reliability_score <= MAX_SCORE_BPS,
        metrics_after_deposit(m, was_on_time, now).social_capital_score <= MAX_SCORE_BPS,
        metrics_after_vote(m, now).reliability_score <= MAX_SCORE_BPS,
        metrics_after_vote(m, now).social_capital_score <= MAX_SCORE_BPS,
        decay_outcome(stored, now) matches Some(d)
            ==> d.reliability_score <= MAX_SCORE_BPS && d.social_capital_score <= MAX_SCORE_BPS,
{
    let total = (m.total_contributions + 1) as u32;
    let on_time = if was_on_time { (m.on_time_contributions + 1) as u32 } else { m.on_time_contributions };
    lemma_reliability_score_bounded(on_time, total, m.total_volume_saved);
    let c = metrics_or_fresh(stored, now);
    let months = (now - c.last_decay) / (DECAY_PERIOD_SECONDS as int);
    if months > 0 {
        lemma_decay_never_raises(c.reliability_score, months as nat);
        lemma_decay_never_raises(c.social_capital_score, months as nat);
    }
}

// --- Reliability Index score and fee discount ---

/// The member's overall score: the mean of reliability and social capital.
pub open spec fn susu_score_of(m: UserReputationMetrics) -> u32 {
    (((m.reliability_score as int) + (m.social_capital_score as int)) / 2) as u32
}

/// The overall score (mean of the two sub-scores) of a member's metrics.
pub fn susu_score(m: &UserReputationMetrics) -> (s: u32)
    ensures
        s == susu_score_of(*m),
{
    (((m.reliability_score as u64) + (m.social_capital_score as u64)) / 2) as u32
}

/// Fee discount, in percent, of an overall score.
pub open spec fn fee_discount_percent_of(score: u32) -> u32 {
    if score >= 9000 {
        75
    } else if score >= 8000 {
        50
    } else if score >= 7000 {
        25
    } else if score >= 6000 {
        10
    } else {
        0
    }
}

/// The fee discount, in basis points off `base_fee_bps`, earned by a member
/// with the given metrics.
pub open spec fn fee_discount_of(base_fee_bps: u32, m: UserReputationMetrics) -> u32 {
    ((base_fee_bps as int) * (fee_discount_percent_of(susu_score_of(m)) as int) / 100) as u32
}

/// The fee discount a member earns on a fee of `base_fee_bps`.
pub fn calculate_fee_discount(base_fee_bps: u32, stored: Option<UserReputationMetrics>, now: u64) -> (d: u32)
    ensures
        d == fee_discount_of(base_fee_bps, metrics_or_fresh(stored, now)),
        d <= base_fee_bps,
{
    let m = metrics_or_default(stored, now);
    let score = susu_score(&m);
    let percent: u64 = if score >= 9000 {
        75
    } else if score >= 8000 {
        50
    } else if score >= 7000 {
        25
    } else if score >= 6000 {
        10
    } else {
        0
    };
    assert((base_fee_bps as u64) * percent / 100 <= base_fee_bps) by (nonlinear_arith)
        requires percent <= 100;
    ((base_fee_bps as u64) * percent / 100) as u32
}

/// A better score never earns a smaller discount.
pub proof fn lemma_fee_discount_monotone(base_fee_bps: u32, a: UserReputationMetrics, b: UserReputationMetrics)
    requires
        susu_score_of(a) <= susu_score_of(b),
    ensures
        fee_discount_of(base_fee_bps, a) <= fee_discount_of(base_fee_bps, b),
{
    let pa = fee_discount_percent_of(susu_score_of(a));
    let pb = fee_discount_percent_of(susu_score_of(b));
    assert((base_fee_bps as int) * (pa as int) <= (base_fee_bps as int) * (pb as int)) by (nonlinear_arith)
        requires pa <= pb;
    assert((base_fee_bps as int) * (pa as int) / 100 <= (base_fee_bps as int) * (pb as int) / 100) by (nonlinear_arith)
        requires (base_fee_bps as int) * (pa as int) <= (base_fee_bps as int) * (pb as int);
    assert((base_fee_bps as int) * (pb as int) / 100 <= base_fee_bps) by (nonlinear_arith)
        requires pb <= 100;
}

// --- Access control by score ---

/// A feature that a high enough overall score unlocks.
#[derive(Clone, Copy, Debug, PartialEq, Eq, Structural)]
pub enum RiFeature {
    BasicParticipation,
    GovernanceVoting,
    PriorityPayoutQueue,
    LiquidityAdvances,
}

/// The lowest overall score that unlocks a feature.
pub open spec fn feature_threshold_of(f: RiFeature) -> u32 {
    match f {
        RiFeature::BasicParticipation => 5000,
        RiFeature::GovernanceVoting => 6000,
        RiFeature::PriorityPayoutQueue => 7000,
        RiFeature::LiquidityAdvances => 8000,
    }
}

/// Whether a member with the given metrics may use `feature`.
pub fn has_access(stored: Option<UserReputationMetrics>, feature: RiFeature, now: u64) -> (b: bool)
    ensures
        b == (susu_score_of(metrics_or_fresh(stored, now)) >= feature_threshold_of(feature)),
{
    let m = metrics_or_default(stored, now);
    let threshold: u32 = match feature {
        RiFeature::BasicParticipation => 5000,
        RiFeature::GovernanceVoting => 6000,
        RiFeature::PriorityPayoutQueue => 7000,
        RiFeature::LiquidityAdvances => 8000,
    };
    susu_score(&m) >= threshold
}

/// A new member may take part in circles and nothing more, and access only
/// grows with the score.
pub proof fn lemma_access_grows_with_score(a: UserReputationMetrics, b: UserReputationMetrics, f: RiFeature, now: u64)
    requires
        susu_score_of(a) <= susu_score_of(b),
    ensures
        susu_score_of(a) >= feature_threshold_of(f) ==> susu_score_of(b) >= feature_threshold_of(f),
        susu_score_of(fresh_metrics(now)) >= feature_threshold_of(RiFeature::BasicParticipation),
        susu_score_of(fresh_metrics(now)) < feature_threshold_of(RiFeature::GovernanceVoting),
{
}

} // verus!
