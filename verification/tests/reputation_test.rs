use sorosusu::early_bird_bonus::{estimate_bonus, record_contribution_with_bonus, EarlyBirdRefusal};
use sorosusu::reliability_oracle::{meets_reputation_threshold, read_reputation, score_to_tier, update_reputation};
use sorosusu::reputation::{
    apply_default_penalty, apply_inactivity_decay, calculate_fee_discount, credit_social_capital, get_ri_internal,
    has_access, record_governance_vote, RiFeature,
    record_payout_volume, restore_after_amnesty, reward_successful_cycle, susu_score, update_reputation_on_deposit,
};
use sorosusu::social_vouching::{slash_voucher, vouch_for_user, VouchRefusal};
use sorosusu::{Account, ReliabilityIndex, ReputationTier, UserReputationMetrics, VouchStatus};

fn account(n: u128) -> Account {
    Account { is_contract: false, key_hi: 7, key_lo: n }
}

fn metrics(reliability: u32, social: u32) -> UserReputationMetrics {
    UserReputationMetrics {
        reliability_score: reliability,
        social_capital_score: social,
        total_cycles: 0,
        perfect_cycles: 0,
        total_volume_saved: 0,
        last_activity: 0,
        last_decay: 0,
        on_time_contributions: 0,
        total_contributions: 0,
    }
}

#[test]
fn tier_thresholds() {
    assert_eq!(score_to_tier(1000), ReputationTier::Excellent);
    assert_eq!(score_to_tier(850), ReputationTier::Excellent);
    assert_eq!(score_to_tier(849), ReputationTier::Good);
    assert_eq!(score_to_tier(650), ReputationTier::Good);
    assert_eq!(score_to_tier(649), ReputationTier::Fair);
    assert_eq!(score_to_tier(400), ReputationTier::Fair);
    assert_eq!(score_to_tier(399), ReputationTier::Poor);
    assert_eq!(score_to_tier(0), ReputationTier::Poor);
}

#[test]
fn tier_never_drops_with_a_higher_score() {
    let rank = |t: ReputationTier| match t {
        ReputationTier::Poor => 0,
        ReputationTier::Fair => 1,
        ReputationTier::Good => 2,
        ReputationTier::Excellent => 3,
    };
    let mut last = 0;
    for s in (0..1200u32).step_by(7) {
        let r = rank(score_to_tier(s));
        assert!(r >= last);
        last = r;
    }
}

#[test]
fn oracle_read_of_missing_record_is_none() {
    assert!(read_reputation(None, Some(4), account(1), 10).is_none());
    assert_eq!(meets_reputation_threshold(None, None, account(1), 0, 10), (false, None));
}

#[test]
fn oracle_read_builds_proof_and_bumps_nonce() {
    let user = account(1);
    let record = update_reputation(user, 700, 8, 6, 1, 2, 3, 4, 55);
    assert_eq!(record.last_updated, 55);
    let (proof, next) = read_reputation(Some(record), None, user, 99).unwrap();
    assert_eq!(proof.proof_version, 1);
    assert_eq!(proof.nonce, 0);
    assert_eq!(next, 1);
    assert_eq!(proof.tier, ReputationTier::Good);
    assert_eq!(proof.on_time_rate_bps, 7500);
    assert_eq!(proof.defaults_count, 1);
    assert_eq!(proof.vouches_given, 2);
    assert_eq!(proof.vouches_received, 3);
    assert_eq!(proof.circles_participated, 4);
    assert_eq!(proof.generated_at, 99);
    let (again, next2) = read_reputation(Some(record), Some(next), user, 100).unwrap();
    assert_eq!(again.nonce, 1);
    assert_eq!(next2, 2);
}

#[test]
fn oracle_rate_is_zero_without_contributions() {
    let user = account(2);
    let record = update_reputation(user, 900, 0, 0, 0, 0, 0, 0, 1);
    let (proof, _) = read_reputation(Some(record), Some(10), user, 2).unwrap();
    assert_eq!(proof.on_time_rate_bps, 0);
    assert_eq!(proof.nonce, 10);
}

#[test]
fn oracle_threshold_gate() {
    let user = account(3);
    let record = update_reputation(user, 650, 1, 1, 0, 0, 0, 1, 1);
    assert_eq!(meets_reputation_threshold(Some(record), None, user, 650, 5), (true, Some(1)));
    assert_eq!(meets_reputation_threshold(Some(record), Some(1), user, 651, 5), (false, Some(2)));
}

#[test]
fn vouch_refusals_in_order() {
    let a = account(1);
    let b = account(2);
    assert_eq!(vouch_for_user(a, b, 1, 100, 699, 0, 0).unwrap_err(), VouchRefusal::RiScoreTooLow);
    assert_eq!(vouch_for_user(a, b, 1, 0, 700, 0, 0).unwrap_err(), VouchRefusal::AmountNotPositive);
    assert_eq!(vouch_for_user(a, a, 1, 100, 700, 0, 0).unwrap_err(), VouchRefusal::SelfVouch);
    assert_eq!(vouch_for_user(a, b, 1, 100, 700, 3, 0).unwrap_err(), VouchRefusal::TooManyActiveVouches);
    assert_eq!(VouchRefusal::TooManyActiveVouches.message(), "Max active vouches reached");
}

#[test]
fn vouch_then_slash() {
    let a = account(1);
    let b = account(2);
    let (record, count) = vouch_for_user(a, b, 9, 10_000, 800, 2, 1_000).unwrap();
    assert_eq!(count, 3);
    assert_eq!(record.status, VouchStatus::Active);
    assert_eq!(record.expires_at, 1_000 + 30 * 24 * 60 * 60);
    assert_eq!(record.slash_amount, 0);
    let (slashed, new_count) = slash_voucher(Some(record), Some(count)).unwrap();
    assert_eq!(slashed.status, VouchStatus::Slashed);
    assert_eq!(slashed.slash_amount, 2_000);
    assert_eq!(slashed.locked_amount, 10_000);
    assert_eq!(new_count, Some(2));
    assert_eq!(slash_voucher(Some(slashed), new_count).unwrap_err(), VouchRefusal::NotActive);
    assert_eq!(slash_voucher(None, None).unwrap_err(), VouchRefusal::RecordNotFound);
}

#[test]
fn slash_with_unstored_or_zero_count() {
    let (record, _) = vouch_for_user(account(1), account(2), 9, 55, 800, 0, 0).unwrap();
    let (slashed, count) = slash_voucher(Some(record), None).unwrap();
    assert_eq!(count, Some(0));
    assert_eq!(slashed.slash_amount, 11);
    let (_, count) = slash_voucher(Some(record), Some(0)).unwrap();
    assert_eq!(count, None);
    // An inactive record is refused before any arithmetic on its amount.
    let mut huge = record;
    huge.locked_amount = i128::MAX;
    huge.status = VouchStatus::Slashed;
    assert_eq!(slash_voucher(Some(huge), Some(1)).unwrap_err(), VouchRefusal::NotActive);
}

#[test]
fn early_bird_bonus_and_stats() {
    let m = account(5);
    let deadline = 1_000_000u64;
    let (rec, stats) = record_contribution_with_bonus(m, 1, 2, deadline, deadline - 86_400, None).unwrap();
    assert!(rec.is_early_bird);
    assert_eq!(rec.seconds_early, 86_400);
    assert_eq!(rec.ri_awarded, 25);
    assert_eq!(rec.weight_bonus_bps, 500);
    assert_eq!(stats.total_contributors, 1);
    assert_eq!(stats.early_bird_count, 1);
    assert_eq!(stats.total_bonus_ri_distributed, 15);
    assert_eq!(estimate_bonus(deadline, deadline - 86_400), (rec.ri_awarded, rec.weight_bonus_bps));

    let (late, stats2) = record_contribution_with_bonus(m, 1, 2, deadline, deadline - 86_399, Some(stats)).unwrap();
    assert!(!late.is_early_bird);
    assert_eq!(late.seconds_early, 0);
    assert_eq!(late.ri_awarded, 10);
    assert_eq!(late.weight_bonus_bps, 0);
    assert_eq!(stats2.total_contributors, 2);
    assert_eq!(stats2.early_bird_count, 1);
    assert_eq!(stats2.total_bonus_ri_distributed, 15);
    assert_eq!(estimate_bonus(deadline, deadline - 86_399), (10, 0));

    let on_deadline = record_contribution_with_bonus(m, 1, 2, deadline, deadline, None).unwrap().0;
    assert_eq!(on_deadline.ri_awarded, estimate_bonus(deadline, deadline).0);
}

#[test]
fn early_bird_past_deadline_refused() {
    let r = record_contribution_with_bonus(account(5), 1, 2, 100, 101, None);
    assert_eq!(r.unwrap_err(), EarlyBirdRefusal::PastDeadline);
    assert_eq!(EarlyBirdRefusal::PastDeadline.message(), "Contribution is past the deadline");
    assert_eq!(estimate_bonus(100, 101), (10, 0));
}

#[test]
fn reliability_index_moves() {
    let fresh = get_ri_internal(None, 42);
    assert_eq!(fresh, ReliabilityIndex { points: 1000, successful_cycles: 0, default_count: 0, last_update: 42 });
    let penalised = apply_default_penalty(fresh, 50);
    assert_eq!(penalised.points, 800);
    assert_eq!(penalised.default_count, 1);
    assert_eq!(penalised.last_update, 50);
    let restored = restore_after_amnesty(penalised);
    assert_eq!(restored.points, 1000);
    assert_eq!(restored.last_update, 50);
    let low = ReliabilityIndex { points: 150, successful_cycles: u16::MAX, default_count: 0, last_update: 0 };
    let low_pen = apply_default_penalty(low, 1);
    assert_eq!(low_pen.points, 0);
    assert_eq!(restore_after_amnesty(low_pen).points, 200);
    let rewarded = reward_successful_cycle(low, 3);
    assert_eq!(rewarded.points, 200);
    assert_eq!(rewarded.successful_cycles, u16::MAX);
    assert_eq!(reward_successful_cycle(fresh, 3).points, 1000);
    assert_eq!(get_ri_internal(Some(low), 99), low);
}

#[test]
fn deposit_reputation_update() {
    let m = update_reputation_on_deposit(None, None, true, 10).unwrap();
    assert_eq!(m.total_contributions, 1);
    assert_eq!(m.on_time_contributions, 1);
    assert_eq!(m.reliability_score, 10_000);
    assert_eq!(m.last_activity, 10);
    let late = update_reputation_on_deposit(Some(m), Some(true), false, 20).unwrap();
    assert_eq!(late.reliability_score, 5_000);
    assert_eq!(update_reputation_on_deposit(Some(m), Some(false), true, 20), None);

    let mut rich = metrics(0, 5000);
    rich.total_volume_saved = 3_500_000;
    rich.on_time_contributions = 1;
    rich.total_contributions = 3;
    let r = update_reputation_on_deposit(Some(rich), None, false, 1).unwrap();
    // on-time rate 1/4 = 2500 bps, volume bonus 3 * 50
    assert_eq!(r.reliability_score, 2_650);

    // A negative saved volume lowers the score instead of wrapping.
    let mut owing = metrics(0, 5000);
    owing.total_volume_saved = -3_000_000;
    owing.on_time_contributions = 0;
    owing.total_contributions = 0;
    let o = update_reputation_on_deposit(Some(owing), None, true, 1).unwrap();
    assert_eq!(o.reliability_score, 9_850);
    // ... and never below zero.
    owing.total_volume_saved = -1_000_000_000_000;
    let z = update_reputation_on_deposit(Some(owing), None, false, 1).unwrap();
    assert_eq!(z.reliability_score, 0);
}

#[test]
fn inactivity_decay() {
    let m = metrics(10_000, 8_000);
    let month = 2_592_000u64;
    let decayed = apply_inactivity_decay(Some(m), month * 7).unwrap();
    assert_eq!(decayed.reliability_score, 6_981);
    assert_eq!(decayed.social_capital_score, 5_584);
    assert_eq!(decayed.last_decay, month * 7);
    // active within the last six months: nothing decays
    let mut active = m;
    active.last_activity = month * 2;
    assert_eq!(apply_inactivity_decay(Some(active), month * 7), None);
    // less than a month since the last decay
    assert_eq!(apply_inactivity_decay(Some(m), month - 1), None);
    assert_eq!(apply_inactivity_decay(None, 123), None);
}

#[test]
fn governance_vote_and_payout_volume() {
    let m = record_governance_vote(Some(metrics(1, 9_995)), 77);
    assert_eq!(m.social_capital_score, 10_000);
    assert_eq!(m.last_activity, 77);
    let m2 = record_governance_vote(None, 5);
    assert_eq!(m2.social_capital_score, 5_010);
    let v = record_payout_volume(Some(metrics(1, 1)), 40, 6);
    assert_eq!(v.total_volume_saved, 40);
    assert_eq!(v.last_activity, 6);
}

#[test]
fn fee_discount_tiers() {
    assert_eq!(susu_score(&metrics(10_000, 8_000)), 9_000);
    assert_eq!(calculate_fee_discount(100, Some(metrics(10_000, 8_000)), 0), 75);
    assert_eq!(calculate_fee_discount(100, Some(metrics(8_000, 8_000)), 0), 50);
    assert_eq!(calculate_fee_discount(100, Some(metrics(7_000, 7_001)), 0), 25);
    assert_eq!(calculate_fee_discount(100, Some(metrics(6_000, 6_000)), 0), 10);
    assert_eq!(calculate_fee_discount(100, Some(metrics(5_999, 6_000)), 0), 0);
    assert_eq!(calculate_fee_discount(100, None, 0), 0);
}

#[test]
fn feature_access_by_score() {
    assert!(has_access(None, RiFeature::BasicParticipation, 0));
    assert!(!has_access(None, RiFeature::GovernanceVoting, 0));
    let m = metrics(6_000, 6_000);
    assert!(has_access(Some(m), RiFeature::GovernanceVoting, 0));
    assert!(!has_access(Some(m), RiFeature::PriorityPayoutQueue, 0));
    let top = metrics(8_000, 8_001);
    assert!(has_access(Some(top), RiFeature::LiquidityAdvances, 0));
}

#[test]
fn social_capital_credit_is_capped() {
    let c = credit_social_capital(Some(metrics(1, 9_990)), 50, 4);
    assert_eq!(c.social_capital_score, 10_000);
    assert_eq!(c.last_activity, 4);
    assert_eq!(credit_social_capital(None, 25, 4).social_capital_score, 5_025);
}
