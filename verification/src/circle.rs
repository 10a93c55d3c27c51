//! Savings circles: membership, the contribution round, the pot and the
//! collateral that high-value circles ask for.
use vstd::prelude::*;

use crate::account::Account;
use crate::rejection::Rejection;
use crate::reputation::{
    ReliabilityIndex, UserReputationMetrics, ri_after_cycle, reward_successful_cycle, div_toward_zero,
    metrics_or_fresh, decay_outcome, deposit_metrics_outcome, fee_discount_of, apply_inactivity_decay,
    update_reputation_on_deposit, calculate_fee_discount, DECAY_PERIOD_SECONDS,
};

verus! {

#[derive(Clone, Copy, Debug, PartialEq, Eq, Structural)]
pub enum MemberStatus {
    Active,
    AwaitingReplacement,
    Ejected,
    Defaulted,
}

/// A member's standing in a circle.
#[derive(Clone, Copy, Debug, PartialEq, Eq, Structural)]
pub struct Member {
    pub address: Account,
    pub index: u32,
    pub contribution_count: u32,
    pub last_contribution_time: u64,
    pub status: MemberStatus,
    pub tier_multiplier: u32,
    pub referrer: Option<Account>,
    pub buddy: Option<Account>,
    pub has_contributed_current_round: bool,
    pub total_contributions: i128,
}

/// A savings circle.
#[derive(Debug)]
pub struct CircleInfo {
    pub id: u64,
    pub creator: Account,
    pub contribution_amount: i128,
    pub max_members: u32,
    pub member_count: u32,
    pub token: Account,
    pub cycle_duration: u64,
    pub deadline_timestamp: u64,
    pub is_active: bool,
    pub is_round_finalized: bool,
    pub current_recipient_index: u32,
    pub current_pot_recipient: Option<Account>,
    pub contribution_bitmap: u64,
    pub insurance_balance: i128,
    pub insurance_fee_bps: u32,
    pub is_insurance_used: bool,
    pub requires_collateral: bool,
    pub collateral_bps: u32,
    pub total_cycle_value: i128,
    pub member_addresses: Vec<Account>,
    pub winners_per_round: u32,
    pub batch_payout_enabled: bool,
    pub round_number: u32,
    pub recovery_old_address: Option<Account>,
    pub recovery_new_address: Option<Account>,
    pub recovery_votes_bitmap: u64,
}

/// A circle as a mathematical value: its fields, with the member list as a
/// sequence.
pub struct CircleView {
    pub id: u64,
    pub creator: Account,
    pub contribution_amount: i128,
    pub max_members: u32,
    pub member_count: u32,
    pub token: Account,
    pub cycle_duration: u64,
    pub deadline_timestamp: u64,
    pub is_active: bool,
    pub is_round_finalized: bool,
    pub current_recipient_index: u32,
    pub current_pot_recipient: Option<Account>,
    pub contribution_bitmap: u64,
    pub insurance_balance: i128,
    pub insurance_fee_bps: u32,
    pub is_insurance_used: bool,
    pub requires_collateral: bool,
    pub collateral_bps: u32,
    pub total_cycle_value: i128,
    pub members: Seq<Account>,
    pub winners_per_round: u32,
    pub batch_payout_enabled: bool,
    pub round_number: u32,
    pub recovery_old_address: Option<Account>,
    pub recovery_new_address: Option<Account>,
    pub recovery_votes_bitmap: u64,
}

impl View for CircleInfo {
    type V = CircleView;

    open spec fn view(&self) -> CircleView {
        CircleView {
            id: self.id,
            creator: self.creator,
            contribution_amount: self.contribution_amount,
            max_members: self.max_members,
            member_count: self.member_count,
            token: self.token,
            cycle_duration: self.cycle_duration,
            deadline_timestamp: self.deadline_timestamp,
            is_active: self.is_active,
            is_round_finalized: self.is_round_finalized,
            current_recipient_index: self.current_recipient_index,
            current_pot_recipient: self.current_pot_recipient,
            contribution_bitmap: self.contribution_bitmap,
            insurance_balance: self.insurance_balance,
            insurance_fee_bps: self.insurance_fee_bps,
            is_insurance_used: self.is_insurance_used,
            requires_collateral: self.requires_collateral,
            collateral_bps: self.collateral_bps,
            total_cycle_value: self.total_cycle_value,
            members: self.member_addresses@,
            winners_per_round: self.winners_per_round,
            batch_payout_enabled: self.batch_payout_enabled,
            round_number: self.round_number,
            recovery_old_address: self.recovery_old_address,
            recovery_new_address: self.recovery_new_address,
            recovery_votes_bitmap: self.recovery_votes_bitmap,
        }
    }
}

#[derive(Clone, Copy, Debug, PartialEq, Eq, Structural)]
pub enum CollateralStatus {
    NotStaked,
    Staked,
    Slashed,
    Released,
}

/// Collateral that a member locked for a circle.
#[derive(Clone, Copy, Debug, PartialEq, Eq, Structural)]
pub struct CollateralInfo {
    pub member: Account,
    pub circle_id: u64,
    pub amount: i128,
    pub status: CollateralStatus,
    pub staked_timestamp: u64,
    pub release_timestamp: Option<u64>,
}

/// Pool value above which a circle is high-value and asks for collateral:
/// 5 000 XLM, in stroops (7 decimals).
pub const HIGH_VALUE_THRESHOLD: i128 = 50_000_000_000;

/// Collateral a high-value circle asks of each member, in basis points of
/// the cycle's value.
pub const DEFAULT_COLLATERAL_BPS: u32 = 2000;

/// The value a cycle of the circle moves: every place's contribution.
pub open spec fn cycle_value_of(contribution_amount: i128, max_members: u32) -> int {
    (contribution_amount as int) * (max_members as int)
}

/// Opens a circle numbered `id`: no members yet, first round due one cycle
/// from `now`; a circle whose cycle moves more than `HIGH_VALUE_THRESHOLD`
/// asks each member for `DEFAULT_COLLATERAL_BPS` of it as collateral.
pub fn create_circle(
    id: u64,
    creator: Account,
    contribution_amount: i128,
    max_members: u32,
    token: Account,
    cycle_duration: u64,
    now: u64,
) -> (c: CircleInfo)
    requires
        now + cycle_duration <= u64::MAX,
        i128::MIN <= cycle_value_of(contribution_amount, max_members) <= i128::MAX,
    ensures
        c@ == (CircleView {
            id,
            creator,
            contribution_amount,
            max_members,
            member_count: 0,
            token,
            cycle_duration,
            deadline_timestamp: (now + cycle_duration) as u64,
            is_active: true,
            is_round_finalized: false,
            current_recipient_index: 0,
            current_pot_recipient: None,
            contribution_bitmap: 0,
            insurance_balance: 0,
            insurance_fee_bps: 0,
            is_insurance_used: false,
            requires_collateral: cycle_value_of(contribution_amount, max_members) > HIGH_VALUE_THRESHOLD,
            collateral_bps: DEFAULT_COLLATERAL_BPS,
            total_cycle_value: cycle_value_of(contribution_amount, max_members) as i128,
            members: Seq::empty(),
            winners_per_round: 0,
            batch_payout_enabled: false,
            round_number: 0,
            recovery_old_address: None,
            recovery_new_address: None,
            recovery_votes_bitmap: 0,
        }),
{
    let total_cycle_value = contribution_amount * (max_members as i128);
    CircleInfo {
        id,
        creator,
        contribution_amount,
        max_members,
        member_count: 0,
        token,
        cycle_duration,
        deadline_timestamp: now + cycle_duration,
        is_active: true,
        is_round_finalized: false,
        current_recipient_index: 0,
        current_pot_recipient: None,
        contribution_bitmap: 0,
        insurance_balance: 0,
        insurance_fee_bps: 0,
        is_insurance_used: false,
        requires_collateral: total_cycle_value > HIGH_VALUE_THRESHOLD,
        collateral_bps: DEFAULT_COLLATERAL_BPS,
        total_cycle_value,
        member_addresses: Vec::new(),
        winners_per_round: 0,
        batch_payout_enabled: false,
        round_number: 0,
        recovery_old_address: None,
        recovery_new_address: None,
        recovery_votes_bitmap: 0,
    }
}

/// A member who has just joined, at position `index`.
pub open spec fn new_member(address: Account, index: u32) -> Member {
    Member {
        address,
        index,
        contribution_count: 0,
        last_contribution_time: 0,
        status: MemberStatus::Active,
        tier_multiplier: 1,
        referrer: None,
        buddy: None,
        has_contributed_current_round: false,
        total_contributions: 0,
    }
}

/// The circle after `user` took a free place.
pub open spec fn circle_after_join(c: CircleView, user: Account) -> CircleView {
    CircleView { member_count: (c.member_count + 1) as u32, members: c.members.push(user), ..c }
}

/// What joining stores: the member record of the circle and the member's
/// profile record.
#[derive(Clone, Copy, Debug, PartialEq, Eq, Structural)]
pub struct JoinOutcome {
    pub circle_member: Member,
    pub profile: Member,
}

/// `user` joins the circle.
///
/// `already_member` tells whether a member record for `user` is stored for
/// the circle; joining again changes nothing (`Ok(None)`). On `Ok(Some(..))`
/// the caller stores the updated circle and both member records.
pub fn join_circle(circle: &mut CircleInfo, already_member: bool, user: Account) -> (res: Result<Option<JoinOutcome>, Rejection>)
    ensures
        already_member ==> res == Ok::<Option<JoinOutcome>, Rejection>(None) && final(circle)@ == old(circle)@,
        !already_member && old(circle).member_count >= old(circle).max_members
            ==> res == Err::<Option<JoinOutcome>, Rejection>(Rejection::CircleFull) && final(circle)@ == old(circle)@,
        !already_member && old(circle).member_count < old(circle).max_members ==> {
            &&& final(circle)@ == circle_after_join(old(circle)@, user)
            &&& res == Ok::<Option<JoinOutcome>, Rejection>(Some(JoinOutcome {
                circle_member: new_member(user, old(circle).member_count),
                profile: new_member(user, 0),
            }))
        },
{
    if already_member {
        return Ok(None);
    }
    if circle.member_count >= circle.max_members {
        return Err(Rejection::CircleFull);
    }
    circle.member_count = circle.member_count + 1;
    circle.member_addresses.push(user);
    let circle_member = Member {
        address: user,
        index: circle.member_count - 1,
        contribution_count: 0,
        last_contribution_time: 0,
        status: MemberStatus::Active,
        tier_multiplier: 1,
        referrer: None,
        buddy: None,
        has_contributed_current_round: false,
        total_contributions: 0,
    };
    let profile = Member { index: 0, ..circle_member };
    Ok(Some(JoinOutcome { circle_member, profile }))
}

/// The contribution bitmap of a round in which all `n` members contributed.
pub open spec fn full_bitmap(n: u32) -> u64 {
    ((1u64 << n) - 1) as u64
}

/// The first check that closing the round fails, if any.
pub open spec fn finalize_refusal(c: CircleView, caller: Account, admin: Option<Account>) -> Option<Rejection> {
    match admin {
        None => Some(Rejection::NotInitialized),
        Some(a) => if caller != c.creator && caller != a {
            Some(Rejection::Unauthorized)
        } else if c.is_round_finalized {
            Some(Rejection::RoundAlreadyFinalized)
        } else if c.contribution_bitmap != full_bitmap(c.member_count) {
            Some(Rejection::NotAllContributed)
        } else {
            None
        },
    }
}

/// Closes the round once every member has contributed.
///
/// Only the circle's creator or the contract's admin (`None`: the contract
/// was never initialised) may close it. The closed round's pot goes to the
/// member at `current_recipient_index`.
pub fn finalize_round(circle: &mut CircleInfo, caller: Account, admin: Option<Account>) -> (res: Result<(), Rejection>)
    requires
        old(circle).member_count < 64,
    ensures
        match finalize_refusal(old(circle)@, caller, admin) {
            Some(e) => res == Err::<(), Rejection>(e) && final(circle)@ == old(circle)@,
            None => res == Ok::<(), Rejection>(()) && final(circle)@ == CircleView {
                is_round_finalized: true,
                current_pot_recipient: if old(circle).current_recipient_index < old(circle)@.members.len() {
                    Some(old(circle)@.members[old(circle).current_recipient_index as int])
                } else {
                    None
                },
                ..old(circle)@
            },
        },
{
    let admin = match admin {
        Some(a) => a,
        None => { return Err(Rejection::NotInitialized); },
    };
    if caller != circle.creator && caller != admin {
        return Err(Rejection::Unauthorized);
    }
    if circle.is_round_finalized {
        return Err(Rejection::RoundAlreadyFinalized);
    }
    let n = circle.member_count;
    assert(1u64 << n >= 1) by (bit_vector)
        requires n < 64;
    let expected_bitmap: u64 = (1u64 << n) - 1;
    if circle.contribution_bitmap != expected_bitmap {
        return Err(Rejection::NotAllContributed);
    }
    circle.is_round_finalized = true;
    let idx = circle.current_recipient_index as usize;
    circle.current_pot_recipient = if idx < circle.member_addresses.len() {
        Some(circle.member_addresses[idx])
    } else {
        None
    };
    Ok(())
}

/// What a pot claim hands out and stores besides the circle.
#[derive(Clone, Copy, Debug, PartialEq, Eq, Structural)]
pub struct PotClaim {
    /// Paid from the contract to the claimant.
    pub pot_amount: i128,
    /// The claimant's index to store, when the claim completed a cycle.
    pub ri: Option<ReliabilityIndex>,
    /// The claimant's collateral to store, when it was released.
    pub collateral: Option<CollateralInfo>,
    /// Collateral paid back from the contract to the claimant.
    pub collateral_refund: Option<i128>,
}

/// The first check that a pot claim fails, if any.
pub open spec fn claim_refusal(c: CircleView, user: Account, scheduled_time: Option<u64>, now: u64) -> Option<Rejection> {
    if !c.is_round_finalized {
        Some(Rejection::RoundNotFinalized)
    } else if c.current_pot_recipient is None {
        Some(Rejection::NoRecipientSet)
    } else if c.current_pot_recipient != Some(user) {
        Some(Rejection::UnauthorizedRecipient)
    } else if scheduled_time is None {
        Some(Rejection::PayoutNotScheduled)
    } else if now < scheduled_time.unwrap() {
        Some(Rejection::PayoutTooEarly)
    } else {
        None
    }
}

/// The pot of a round: every member's contribution.
pub open spec fn pot_of(c: CircleView) -> int {
    (c.contribution_amount as int) * (c.member_count as int)
}

/// Whether the claimant completed the cycle: as many contributions as the
/// circle has places.
pub open spec fn completed_cycle(c: CircleView, member: Option<Member>) -> bool {
    member matches Some(m) && m.contribution_count >= c.max_members
}

/// Whether the claimant's collateral goes back with the pot.
pub open spec fn releases_collateral(c: CircleView, member: Option<Member>, collateral: Option<CollateralInfo>) -> bool {
    &&& completed_cycle(c, member)
    &&& c.requires_collateral
    &&& collateral matches Some(k) && k.status == CollateralStatus::Staked
}

/// The circle after its pot was claimed: ready for the next round.
pub open spec fn circle_after_claim(c: CircleView) -> CircleView {
    CircleView {
        is_round_finalized: false,
        contribution_bitmap: 0,
        is_insurance_used: false,
        current_recipient_index: ((c.current_recipient_index + 1) % (c.member_count as int)) as u32,
        current_pot_recipient: None,
        ..c
    }
}

/// The recipient of a finalised round claims the pot.
///
/// `scheduled_time` is the circle's stored payout time, `member` the
/// claimant's stored profile, `stored_ri` the claimant's stored index and
/// `collateral` the claimant's stored collateral for this circle. A claimant
/// who contributed for the whole cycle earns RI and gets back staked
/// collateral. The circle moves on to the next recipient; the caller removes
/// the payout time.
pub fn claim_pot(
    circle: &mut CircleInfo,
    user: Account,
    scheduled_time: Option<u64>,
    member: Option<Member>,
    stored_ri: Option<ReliabilityIndex>,
    collateral: Option<CollateralInfo>,
    now: u64,
) -> (res: Result<PotClaim, Rejection>)
    requires
        claim_refusal(old(circle)@, user, scheduled_time, now) is None ==> {
            &&& i128::MIN <= pot_of(old(circle)@) <= i128::MAX
            &&& old(circle).member_count > 0
            &&& old(circle).current_recipient_index < u32::MAX
        },
    ensures
        match claim_refusal(old(circle)@, user, scheduled_time, now) {
            Some(e) => res == Err::<PotClaim, Rejection>(e) && final(circle)@ == old(circle)@,
            None => final(circle)@ == circle_after_claim(old(circle)@) && res == Ok::<PotClaim, Rejection>(PotClaim {
                pot_amount: pot_of(old(circle)@) as i128,
                ri: if completed_cycle(old(circle)@, member) {
                    Some(ri_after_cycle(crate::reputation::ri_or_fresh(stored_ri, now), now))
                } else {
                    None
                },
                collateral: if releases_collateral(old(circle)@, member, collateral) {
                    Some(CollateralInfo {
                        status: CollateralStatus::Released,
                        release_timestamp: Some(now),
                        ..collateral.unwrap()
                    })
                } else {
                    None
                },
                collateral_refund: if releases_collateral(old(circle)@, member, collateral) {
                    Some(collateral.unwrap().amount)
                } else {
                    None
                },
            }),
        },
        res matches Ok(p) ==> {
            &&& p.pot_amount == old(circle).contribution_amount * old(circle).member_count
            &&& p.ri is Some ==> (member matches Some(m) && m.contribution_count >= old(circle).max_members)
            &&& p.collateral is Some <==> p.collateral_refund is Some
            &&& p.collateral_refund is Some ==> {
                &&& member matches Some(m) && m.contribution_count >= old(circle).max_members
                &&& old(circle).requires_collateral
                &&& collateral matches Some(k) && k.status == CollateralStatus::Staked
                    && p.collateral_refund == Some(k.amount)
                    && p.collateral == Some(CollateralInfo { status: CollateralStatus::Released, release_timestamp: Some(now), ..k })
            }
        },
{
    if !circle.is_round_finalized {
        return Err(Rejection::RoundNotFinalized);
    }
    match circle.current_pot_recipient {
        Some(recipient) => {
            if user != recipient {
                return Err(Rejection::UnauthorizedRecipient);
            }
        },
        None => { return Err(Rejection::NoRecipientSet); },
    }
    let scheduled = match scheduled_time {
        Some(t) => t,
        None => { return Err(Rejection::PayoutNotScheduled); },
    };
    if now < scheduled {
        return Err(Rejection::PayoutTooEarly);
    }
    let pot_amount = circle.contribution_amount * (circle.member_count as i128);
    let mut ri_out: Option<ReliabilityIndex> = None;
    let mut collateral_out: Option<CollateralInfo> = None;
    let mut refund: Option<i128> = None;
    if let Some(m) = member {
        if m.contribution_count >= circle.max_members {
            let ri = crate::reputation::get_ri_internal(stored_ri, now);
            ri_out = Some(reward_successful_cycle(ri, now));
            if circle.requires_collateral {
                if let Some(k) = collateral {
                    if k.status == CollateralStatus::Staked {
                        refund = Some(k.amount);
                        collateral_out = Some(CollateralInfo {
                            status: CollateralStatus::Released,
                            release_timestamp: Some(now),
                            ..k
                        });
                    }
                }
            }
        }
    }
    circle.is_round_finalized = false;
    circle.contribution_bitmap = 0;
    circle.is_insurance_used = false;
    circle.current_recipient_index = (circle.current_recipient_index + 1) % circle.member_count;
    circle.current_pot_recipient = None;
    Ok(PotClaim { pot_amount, ri: ri_out, collateral: collateral_out, collateral_refund: refund })
}

/// Protocol fee, in basis points, when none was configured.
pub const DEFAULT_FEE_BPS: u32 = 100;

/// What a deposit charges and stores besides the member.
#[derive(Clone, Copy, Debug, PartialEq, Eq, Structural)]
pub struct DepositOutcome {
    /// Protocol fee on top of the contribution.
    pub fee_amount: i128,
    /// Paid by the member to the contract: contribution plus fee.
    pub total_amount: i128,
    /// Whether the deposit came no later than the round deadline.
    pub was_on_time: bool,
    /// The member's reputation metrics to store, `None`: left as they are.
    pub metrics: Option<UserReputationMetrics>,
}

/// The fee rate a member pays after the discount their reputation earns.
pub open spec fn effective_fee_bps(base_fee_bps: u32, stored: Option<UserReputationMetrics>, now: u64) -> u32 {
    let d = fee_discount_of(base_fee_bps, metrics_or_fresh(stored, now));
    if base_fee_bps >= d { (base_fee_bps - d) as u32 } else { 0 }
}

/// The fee on a contribution at a rate in basis points.
pub open spec fn fee_on(amount: i128, rate_bps: u32) -> int {
    div_toward_zero((amount as int) * (rate_bps as int), 10_000)
}

/// The metrics a deposit stores: the inactivity decay due first, then the
/// deposit itself unless the member failed the personhood check.
pub open spec fn deposit_metrics(
    stored: Option<UserReputationMetrics>,
    verified: Option<bool>,
    was_on_time: bool,
    now: u64,
) -> Option<UserReputationMetrics> {
    let decayed = decay_outcome(stored, now);
    let current = if decayed is Some { decayed } else { stored };
    if verified == Some(false) {
        decayed
    } else {
        deposit_metrics_outcome(current, verified, was_on_time, now)
    }
}

/// What the metrics stored after the decay step are.
pub open spec fn metrics_after_decay(stored: Option<UserReputationMetrics>, now: u64) -> UserReputationMetrics {
    let decayed = decay_outcome(stored, now);
    metrics_or_fresh(if decayed is Some { decayed } else { stored }, now)
}

/// A member pays this round's contribution plus the protocol fee.
///
/// `stored_fee_bps` is the configured fee (`None`: the default), discounted
/// by the member's reputation (`stored_metrics`). `verified` is the answer of
/// the proof-of-personhood oracle, `None` when none is set. The member record
/// is updated in place.
pub fn deposit(
    circle: &CircleInfo,
    member: &mut Member,
    stored_fee_bps: Option<u32>,
    stored_metrics: Option<UserReputationMetrics>,
    verified: Option<bool>,
    now: u64,
) -> (res: DepositOutcome)
    requires
        ({
            let rate = effective_fee_bps(stored_fee_bps.unwrap_or(DEFAULT_FEE_BPS), stored_metrics, now);
            &&& i128::MIN <= (circle.contribution_amount as int) * (rate as int) <= i128::MAX
            &&& i128::MIN <= circle.contribution_amount + fee_on(circle.contribution_amount, rate) <= i128::MAX
        }),
        old(member).contribution_count < u32::MAX,
        i128::MIN <= old(member).total_contributions + circle.contribution_amount <= i128::MAX,
        now >= metrics_or_fresh(stored_metrics, now).last_decay,
        (now - metrics_or_fresh(stored_metrics, now).last_decay) / (DECAY_PERIOD_SECONDS as int) > 0
            ==> now >= metrics_or_fresh(stored_metrics, now).last_activity,
        verified != Some(false) ==> ({
            let m = metrics_after_decay(stored_metrics, now);
            &&& m.total_contributions < u32::MAX
            &&& (if now <= circle.deadline_timestamp { m.on_time_contributions + 1 } else { m.on_time_contributions as int }) * 10_000 <= u32::MAX
        }),
    ensures
        ({
            let rate = effective_fee_bps(stored_fee_bps.unwrap_or(DEFAULT_FEE_BPS), stored_metrics, now);
            let fee = fee_on(circle.contribution_amount, rate);
            res == DepositOutcome {
                fee_amount: fee as i128,
                total_amount: (circle.contribution_amount + fee) as i128,
                was_on_time: now <= circle.deadline_timestamp,
                metrics: deposit_metrics(stored_metrics, verified, now <= circle.deadline_timestamp, now),
            }
        }),
        *final(member) == (Member {
            contribution_count: (old(member).contribution_count + 1) as u32,
            total_contributions: (old(member).total_contributions + circle.contribution_amount) as i128,
            has_contributed_current_round: true,
            last_contribution_time: now,
            ..*old(member)
        }),
        verified == Some(false) ==> res.metrics == decay_outcome(stored_metrics, now),
        decay_outcome(stored_metrics, now) matches Some(d) ==> (verified != Some(false) ==> (res.metrics matches Some(m) && {
            &&& m.social_capital_score == d.social_capital_score
            &&& m.last_decay == now
            &&& m.last_activity == now
            &&& m.total_contributions == d.total_contributions + 1
        })),
        decay_outcome(stored_metrics, now) is None ==> (verified != Some(false) ==> (res.metrics matches Some(m) && {
            &&& m.social_capital_score == metrics_or_fresh(stored_metrics, now).social_capital_score
            &&& m.last_decay == metrics_or_fresh(stored_metrics, now).last_decay
            &&& m.total_contributions == metrics_or_fresh(stored_metrics, now).total_contributions + 1
        })),
{
    let base_fee_bps: u32 = match stored_fee_bps {
        Some(f) => f,
        None => DEFAULT_FEE_BPS,
    };
    let discount_bps = calculate_fee_discount(base_fee_bps, stored_metrics, now);
    let effective_fee_bps = base_fee_bps.saturating_sub(discount_bps);
    let fee_amount = (circle.contribution_amount * (effective_fee_bps as i128)) / 10_000;
    let total_amount = circle.contribution_amount + fee_amount;

    member.contribution_count = member.contribution_count + 1;
    member.total_contributions = member.total_contributions + circle.contribution_amount;
    member.has_contributed_current_round = true;
    member.last_contribution_time = now;

    let was_on_time = now <= circle.deadline_timestamp;
    let decayed = apply_inactivity_decay(stored_metrics, now);
    let current = if decayed.is_some() { decayed } else { stored_metrics };
    let metrics = if let Some(v) = verified {
        if !v { decayed } else { update_reputation_on_deposit(current, verified, was_on_time, now) }
    } else {
        update_reputation_on_deposit(current, verified, was_on_time, now)
    };
    DepositOutcome { fee_amount, total_amount, was_on_time, metrics }
}

/// A deposit never drops the inactivity decay that is due: the stored
/// metrics keep the decayed social capital and the decay time, and count the
/// deposit on top of the decayed record. With no decay due the member's
/// social capital and decay time stay as they were.
pub proof fn lemma_deposit_applies_due_decay(
    stored: Option<UserReputationMetrics>,
    verified: Option<bool>,
    was_on_time: bool,
    now: u64,
)
    requires
        verified != Some(false),
        metrics_or_fresh(stored, now).total_contributions < u32::MAX,
    ensures
        decay_outcome(stored, now) matches Some(d) ==> (deposit_metrics(stored, verified, was_on_time, now) matches Some(m) && {
            &&& m.social_capital_score == d.social_capital_score
            &&& m.last_decay == now
            &&& m.total_contributions == d.total_contributions + 1
        }),
        decay_outcome(stored, now) is None ==> (deposit_metrics(stored, verified, was_on_time, now) matches Some(m) && {
            &&& m.social_capital_score == metrics_or_fresh(stored, now).social_capital_score
            &&& m.last_decay == metrics_or_fresh(stored, now).last_decay
        }),
{
}

/// Collateral goes back with the pot only to a claimant who contributed for
/// the whole cycle, in a circle that asks for collateral, and only while it
/// is staked; RI for the cycle likewise needs the whole cycle.
pub proof fn lemma_refund_needs_full_cycle(c: CircleView, member: Option<Member>, collateral: Option<CollateralInfo>)
    ensures
        releases_collateral(c, member, collateral) ==> {
            &&& member matches Some(m) && m.contribution_count >= c.max_members
            &&& c.requires_collateral
            &&& collateral matches Some(k) && k.status == CollateralStatus::Staked
        },
        completed_cycle(c, member) ==> (member matches Some(m) && m.contribution_count >= c.max_members),
        (member matches Some(m) && m.contribution_count < c.max_members) ==> !releases_collateral(c, member, collateral),
{
}

/// The effective fee never exceeds the configured fee.
pub proof fn lemma_discount_never_raises_fee(base_fee_bps: u32, stored: Option<UserReputationMetrics>, now: u64)
    ensures
        effective_fee_bps(base_fee_bps, stored, now) <= base_fee_bps,
{
}

/// The insurance fee on a contribution of `base_amount`.
pub open spec fn insurance_fee_of(c: CircleView, base_amount: i128) -> int {
    div_toward_zero((base_amount as int) * (c.insurance_fee_bps as int), 10_000)
}

/// What a contribution with a late penalty costs in all.
pub open spec fn contribution_total_of(c: CircleView, base_amount: i128, penalty_amount: i128) -> int {
    base_amount + insurance_fee_of(c, base_amount) + penalty_amount
}

/// What a contribution costs: (insurance fee, total to transfer).
pub fn contribution_charge(circle: &CircleInfo, base_amount: i128, penalty_amount: i128) -> (res: (i128, i128))
    requires
        i128::MIN <= (base_amount as int) * (circle.insurance_fee_bps as int) <= i128::MAX,
        i128::MIN <= base_amount + insurance_fee_of(circle@, base_amount) <= i128::MAX,
        i128::MIN <= contribution_total_of(circle@, base_amount, penalty_amount) <= i128::MAX,
    ensures
        res == (insurance_fee_of(circle@, base_amount) as i128, contribution_total_of(circle@, base_amount, penalty_amount) as i128),
{
    let insurance_fee = (base_amount * (circle.insurance_fee_bps as i128)) / 10_000;
    let total_amount = base_amount + insurance_fee + penalty_amount;
    (insurance_fee, total_amount)
}

/// What a settled contribution leaves to store.
#[derive(Clone, Copy, Debug, PartialEq, Eq, Structural)]
pub struct Settlement {
    /// The buddy's safety deposit after covering the contribution, when it
    /// was drawn on.
    pub buddy_balance: Option<i128>,
    /// The group reserve, credited with the late penalty.
    pub group_reserve: i128,
}

/// Whether a contribution gets paid: by the member, or else by the buddy's
/// safety deposit when it covers the total.
pub open spec fn contribution_paid(member: Member, transfer_succeeded: bool, buddy_balance: i128, total: int) -> bool {
    transfer_succeeded || (member.buddy is Some && buddy_balance >= total)
}

/// Settles a contribution once the contract tried to collect its total from
/// the member.
///
/// When that transfer failed, the member's buddy covers it from their safety
/// deposit for this circle (`buddy_balance`, the stored balance, 0 when none
/// is stored). `group_reserve` is the stored group reserve (0 when none). On
/// success the member is marked as having contributed this round, the
/// insurance fee goes to the circle's insurance balance and the penalty to
/// the group reserve; the result holds the buddy's balance to store, if it
/// was drawn on, and the reserve to store.
pub fn settle_contribution(
    circle: &mut CircleInfo,
    member: &mut Member,
    base_amount: i128,
    penalty_amount: i128,
    transfer_succeeded: bool,
    buddy_balance: i128,
    group_reserve: i128,
    now: u64,
) -> (res: Result<Settlement, Rejection>)
    requires
        i128::MIN <= (base_amount as int) * (old(circle).insurance_fee_bps as int) <= i128::MAX,
        i128::MIN <= base_amount + insurance_fee_of(old(circle)@, base_amount) <= i128::MAX,
        i128::MIN <= contribution_total_of(old(circle)@, base_amount, penalty_amount) <= i128::MAX,
        contribution_paid(*old(member), transfer_succeeded, buddy_balance,
            contribution_total_of(old(circle)@, base_amount, penalty_amount)) ==> {
            &&& insurance_fee_of(old(circle)@, base_amount) > 0
                ==> old(circle).insurance_balance + insurance_fee_of(old(circle)@, base_amount) <= i128::MAX
            &&& !transfer_succeeded
                ==> buddy_balance - contribution_total_of(old(circle)@, base_amount, penalty_amount) <= i128::MAX
            &&& i128::MIN <= group_reserve + penalty_amount <= i128::MAX
            &&& old(member).contribution_count < u32::MAX
            &&& old(member).index < 64
        },
    ensures
        ({
            let total = contribution_total_of(old(circle)@, base_amount, penalty_amount);
            let fee = insurance_fee_of(old(circle)@, base_amount);
            if !transfer_succeeded && old(member).buddy is None {
                &&& res == Err::<Settlement, Rejection>(Rejection::InsufficientFunds)
                &&& final(circle)@ == old(circle)@
                &&& *final(member) == *old(member)
            } else if !transfer_succeeded && buddy_balance < total {
                &&& res == Err::<Settlement, Rejection>(Rejection::InsufficientFundsAndBuddyDeposit)
                &&& final(circle)@ == old(circle)@
                &&& *final(member) == *old(member)
            } else {
                &&& res == Ok::<Settlement, Rejection>(Settlement {
                    buddy_balance: if transfer_succeeded { None } else { Some((buddy_balance - total) as i128) },
                    group_reserve: (group_reserve + penalty_amount) as i128,
                })
                &&& final(circle)@ == CircleView {
                    insurance_balance: if fee > 0 { (old(circle).insurance_balance + fee) as i128 } else { old(circle).insurance_balance },
                    contribution_bitmap: old(circle).contribution_bitmap | (1u64 << old(member).index),
                    ..old(circle)@
                }
                &&& *final(member) == Member {
                    contribution_count: (old(member).contribution_count + 1) as u32,
                    last_contribution_time: now,
                    ..*old(member)
                }
            }
        }),
{
    let (insurance_fee, total_amount) = contribution_charge(circle, base_amount, penalty_amount);
    let mut buddy_after: Option<i128> = None;
    if !transfer_succeeded {
        if member.buddy.is_some() {
            if buddy_balance >= total_amount {
                buddy_after = Some(buddy_balance - total_amount);
            } else {
                return Err(Rejection::InsufficientFundsAndBuddyDeposit);
            }
        } else {
            return Err(Rejection::InsufficientFunds);
        }
    }
    if insurance_fee > 0 {
        circle.insurance_balance = circle.insurance_balance + insurance_fee;
    }
    member.contribution_count = member.contribution_count + 1;
    member.last_contribution_time = now;
    circle.contribution_bitmap = circle.contribution_bitmap | (1u64 << member.index);
    Ok(Settlement { buddy_balance: buddy_after, group_reserve: group_reserve + penalty_amount })
}

/// Collateral a circle asks of each member.
pub open spec fn required_collateral_of(c: CircleView) -> int {
    div_toward_zero((c.total_cycle_value as int) * (c.collateral_bps as int), 10_000)
}

/// A member stakes collateral for a high-value circle.
///
/// `existing` is the member's stored collateral for the circle. On success
/// the caller transfers `amount` from the member and stores the result.
pub fn stake_collateral(
    circle: &CircleInfo,
    user: Account,
    existing: Option<CollateralInfo>,
    amount: i128,
    now: u64,
) -> (res: Result<CollateralInfo, Rejection>)
    requires
        circle.requires_collateral && existing is None
            ==> i128::MIN <= (circle.total_cycle_value as int) * (circle.collateral_bps as int) <= i128::MAX,
    ensures
        res == (if !circle.requires_collateral {
            Err(Rejection::CollateralNotRequired)
        } else if existing is Some {
            Err(Rejection::CollateralAlreadyStaked)
        } else if amount < required_collateral_of(circle@) {
            Err(Rejection::InsufficientCollateral)
        } else {
            Ok(CollateralInfo {
                member: user,
                circle_id: circle.id,
                amount,
                status: CollateralStatus::Staked,
                staked_timestamp: now,
                release_timestamp: None,
            })
        }),
{
    if !circle.requires_collateral {
        return Err(Rejection::CollateralNotRequired);
    }
    if existing.is_some() {
        return Err(Rejection::CollateralAlreadyStaked);
    }
    let required = (circle.total_cycle_value * (circle.collateral_bps as i128)) / 10_000;
    if amount < required {
        return Err(Rejection::InsufficientCollateral);
    }
    Ok(CollateralInfo {
        member: user,
        circle_id: circle.id,
        amount,
        status: CollateralStatus::Staked,
        staked_timestamp: now,
        release_timestamp: None,
    })
}

/// Marks staked collateral as slashed.
pub fn slash_collateral(info: CollateralInfo) -> (out: CollateralInfo)
    ensures
        out == (CollateralInfo { status: CollateralStatus::Slashed, ..info }),
{
    CollateralInfo { status: CollateralStatus::Slashed, ..info }
}

/// Marks collateral as released; the caller pays `info.amount` back to the
/// member.
pub fn release_collateral(info: CollateralInfo) -> (out: CollateralInfo)
    ensures
        out == (CollateralInfo { status: CollateralStatus::Released, ..info }),
{
    CollateralInfo { status: CollateralStatus::Released, ..info }
}

/// One asset of a basket circle and its weight in basis points.
#[derive(Clone, Copy, Debug, PartialEq, Eq, Structural)]
pub struct AssetWeight {
    pub token: Account,
    pub weight_bps: u32,
}

/// Pairs each asset of a basket circle with its weight.
pub fn basket_config(assets: &Vec<Account>, weights: &Vec<u32>) -> (basket: Vec<AssetWeight>)
    requires
        weights@.len() >= assets@.len(),
    ensures
        basket@.len() == assets@.len(),
        forall|i: int| 0 <= i < assets@.len() ==> #[trigger] basket@[i] == (AssetWeight { token: assets@[i], weight_bps: weights@[i] }),
{
    let mut basket: Vec<AssetWeight> = Vec::new();
    let mut i: usize = 0;
    while i < assets.len()
        invariant
            i <= assets@.len(),
            weights@.len() >= assets@.len(),
            basket@.len() == i,
            forall|j: int| 0 <= j < i ==> #[trigger] basket@[j] == (AssetWeight { token: assets@[j], weight_bps: weights@[j] }),
        decreases assets@.len() - i,
    {
        basket.push(AssetWeight { token: assets[i], weight_bps: weights[i] });
        i = i + 1;
    }
    basket
}

/// The amount of one basket asset in a contribution.
pub open spec fn basket_share(contribution_amount: i128, weight_bps: u32) -> int {
    div_toward_zero((contribution_amount as int) * (weight_bps as int), 10_000)
}

/// A member pays a basket circle's contribution, split over its assets.
///
/// The result lists, for each asset of `basket` in order, the amount the
/// caller transfers from the member; the member record is updated in place.
pub fn deposit_basket(circle: &CircleInfo, basket: &Vec<AssetWeight>, member: &mut Member) -> (amounts: Vec<i128>)
    requires
        forall|i: int| 0 <= i < basket@.len() ==>
            i128::MIN <= (circle.contribution_amount as int) * (#[trigger] basket@[i].weight_bps as int) <= i128::MAX,
        old(member).contribution_count < u32::MAX,
    ensures
        amounts@.len() == basket@.len(),
        forall|i: int| 0 <= i < basket@.len() ==> #[trigger] amounts@[i] == basket_share(circle.contribution_amount, basket@[i].weight_bps),
        *final(member) == (Member {
            contribution_count: (old(member).contribution_count + 1) as u32,
            has_contributed_current_round: true,
            ..*old(member)
        }),
{
    let mut amounts: Vec<i128> = Vec::new();
    let mut i: usize = 0;
    while i < basket.len()
        invariant
            i <= basket@.len(),
            amounts@.len() == i,
            forall|j: int| 0 <= j < basket@.len() ==>
                i128::MIN <= (circle.contribution_amount as int) * (#[trigger] basket@[j].weight_bps as int) <= i128::MAX,
            forall|j: int| 0 <= j < i ==> #[trigger] amounts@[j] == basket_share(circle.contribution_amount, basket@[j].weight_bps),
        decreases basket@.len() - i,
    {
        let w = basket[i].weight_bps;
        assert(i128::MIN <= (circle.contribution_amount as int) * (basket@[i as int].weight_bps as int) <= i128::MAX);
        amounts.push((circle.contribution_amount * (w as i128)) / 10_000);
        i = i + 1;
    }
    member.contribution_count = member.contribution_count + 1;
    member.has_contributed_current_round = true;
    amounts
}

/// A deposit made through an anchor on behalf of a member.
#[derive(Debug)]
pub struct AnchorDeposit {
    pub id: u64,
    pub anchor_address: Account,
    pub beneficiary_user: Account,
    pub circle_id: u64,
    pub amount: i128,
    pub deposit_memo: String,
    pub fiat_reference: String,
    pub sep_type: String,
    pub timestamp: u64,
    pub processed: bool,
    pub compliance_verified: bool,
}

/// Identifier given to anchor deposit records.
pub const ANCHOR_DEPOSIT_ID: u64 = 1;

/// An anchor deposits `amount` for `user`; the caller transfers `amount`
/// from the anchor and stores the member and the record.
pub fn deposit_for_user(
    member: &mut Member,
    anchor: Account,
    user: Account,
    circle_id: u64,
    amount: i128,
    memo: String,
    fiat_reference: String,
    sep_type: String,
    now: u64,
) -> (record: AnchorDeposit)
    requires
        i128::MIN <= old(member).total_contributions + amount <= i128::MAX,
    ensures
        *final(member) == (Member {
            has_contributed_current_round: true,
            total_contributions: (old(member).total_contributions + amount) as i128,
            ..*old(member)
        }),
        record == (AnchorDeposit {
            id: ANCHOR_DEPOSIT_ID,
            anchor_address: anchor,
            beneficiary_user: user,
            circle_id,
            amount,
            deposit_memo: memo,
            fiat_reference,
            sep_type,
            timestamp: now,
            processed: true,
            compliance_verified: true,
        }),
{
    member.has_contributed_current_round = true;
    member.total_contributions = member.total_contributions + amount;
    AnchorDeposit {
        id: ANCHOR_DEPOSIT_ID,
        anchor_address: anchor,
        beneficiary_user: user,
        circle_id,
        amount,
        deposit_memo: memo,
        fiat_reference,
        sep_type,
        timestamp: now,
        processed: true,
        compliance_verified: true,
    }
}

/// A circle never holds more members than it has places, and its member
/// count matches its member list: a join, which needs a free place, keeps both.
pub proof fn lemma_join_keeps_places(c: CircleView, user: Account)
    requires
        c.member_count == c.members.len(),
        c.member_count < c.max_members,
    ensures
        circle_after_join(c, user).member_count <= circle_after_join(c, user).max_members,
        circle_after_join(c, user).member_count == circle_after_join(c, user).members.len(),
        circle_after_join(c, user).members.last() == user,
{
}

/// After a claim the recipient position points at a member again, and a
/// claimed round cannot be claimed a second time.
pub proof fn lemma_claim_moves_on(c: CircleView, user: Account, scheduled_time: Option<u64>, now: u64)
    requires
        c.member_count > 0,
    ensures
        circle_after_claim(c).current_recipient_index < c.member_count,
        claim_refusal(circle_after_claim(c), user, scheduled_time, now) == Some(Rejection::RoundNotFinalized),
{
}

/// The contribution bitmap after the members at positions `0..k` each
/// contributed once, starting from an empty round.
pub open spec fn bits_up_to(k: nat) -> u64
    decreases k,
{
    if k == 0 {
        0
    } else {
        bits_up_to((k - 1) as nat) | (1u64 << ((k - 1) as u64))
    }
}

/// Once every member has contributed, in any round of up to 63 members, the
/// bitmap is the full one that closing the round asks for.
pub proof fn lemma_all_contributed_is_full(n: u32)
    requires
        n < 64,
    ensures
        bits_up_to(n as nat) == full_bitmap(n),
    decreases n,
{
    if n == 0 {
        assert(((1u64 << 0u32) - 1) as u64 == 0u64) by (bit_vector);
    } else {
        lemma_all_contributed_is_full((n - 1) as u32);
        let k = (n - 1) as u64;
        let m: u32 = (n - 1) as u32;
        assert(((1u64 << m) - 1) as u64 | (1u64 << k) == ((1u64 << n) - 1) as u64) by (bit_vector)
            requires k < 63, m == k, n == m + 1;
    }
}

/// A member proposes to move a membership from `lost` to `replacement`,
/// e.g. after losing a key.
pub fn propose_address_change(circle: &mut CircleInfo, lost: Account, replacement: Account)
    ensures
        final(circle)@ == (CircleView {
            recovery_old_address: Some(lost),
            recovery_new_address: Some(replacement),
            ..old(circle)@
        }),
{
    circle.recovery_old_address = Some(lost);
    circle.recovery_new_address = Some(replacement);
}

/// Records a vote for the pending address change (in the first bit of the
/// recovery bitmap).
pub fn vote_for_recovery(circle: &mut CircleInfo)
    ensures
        final(circle)@ == (CircleView { recovery_votes_bitmap: old(circle).recovery_votes_bitmap | 1, ..old(circle)@ }),
{
    circle.recovery_votes_bitmap = circle.recovery_votes_bitmap | 1;
}

} // verus!
