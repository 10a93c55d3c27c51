use sorosusu::circle::{
    basket_config, claim_pot, contribution_charge, create_circle, deposit, deposit_basket, deposit_for_user, finalize_round, join_circle,
    release_collateral, settle_contribution, slash_collateral, stake_collateral, Settlement,
};
use sorosusu::payouts::{
    claim_tranche, distribute_batch_payout, distribute_payout, execute_tranche_clawback, review_frozen_payout,
    screen_pot_claim, trigger_dex_swap, DexSwapConfig, PotScreening, TrancheStatus,
};
use sorosusu::{
    Account, CircleInfo, CollateralInfo, CollateralStatus, Member, MemberStatus, Rejection, ReliabilityIndex,
    UserReputationMetrics,
};

fn account(n: u128) -> Account {
    Account { is_contract: false, key_hi: 1, key_lo: n }
}

fn circle(members: u32) -> CircleInfo {
    let mut addrs = Vec::new();
    for i in 0..members {
        addrs.push(account(100 + i as u128));
    }
    CircleInfo {
        id: 4,
        creator: account(1),
        contribution_amount: 1_000,
        max_members: 5,
        member_count: members,
        token: account(2),
        cycle_duration: 86_400,
        deadline_timestamp: 10_000,
        is_active: true,
        is_round_finalized: false,
        current_recipient_index: 0,
        current_pot_recipient: None,
        contribution_bitmap: 0,
        insurance_balance: 0,
        insurance_fee_bps: 200,
        is_insurance_used: false,
        requires_collateral: true,
        collateral_bps: 2000,
        total_cycle_value: 50_000,
        member_addresses: addrs,
        winners_per_round: 0,
        batch_payout_enabled: false,
        round_number: 3,
        recovery_old_address: None,
        recovery_new_address: None,
        recovery_votes_bitmap: 0,
    }
}

fn member(addr: Account, index: u32) -> Member {
    Member {
        address: addr,
        index,
        contribution_count: 0,
        last_contribution_time: 0,
        status: MemberStatus::Active,
        tier_multiplier: 1,
        referrer: None,
        buddy: None,
        has_contributed_current_round: false,
        total_contributions: 0,
    }
}

#[test]
fn join_assigns_next_index_and_refuses_when_full() {
    let mut c = circle(3);
    let user = account(50);
    let out = join_circle(&mut c, false, user).unwrap().unwrap();
    assert_eq!(out.circle_member.index, 3);
    assert_eq!(out.profile.index, 0);
    assert_eq!(out.circle_member.status, MemberStatus::Active);
    assert_eq!(c.member_count, 4);
    assert_eq!(*c.member_addresses.last().unwrap(), user);
    assert!(join_circle(&mut c, true, user).unwrap().is_none());
    assert_eq!(c.member_count, 4);
    join_circle(&mut c, false, account(51)).unwrap();
    assert_eq!(join_circle(&mut c, false, account(52)).unwrap_err(), Rejection::CircleFull);
    assert_eq!(c.member_count, 5);
    assert_eq!(Rejection::CircleFull.message(), "Circle full");
}

#[test]
fn finalize_round_checks() {
    let mut c = circle(3);
    let admin = account(9);
    assert_eq!(finalize_round(&mut c, account(1), None).unwrap_err(), Rejection::NotInitialized);
    assert_eq!(finalize_round(&mut c, account(77), Some(admin)).unwrap_err(), Rejection::Unauthorized);
    c.contribution_bitmap = 0b011;
    assert_eq!(finalize_round(&mut c, admin, Some(admin)).unwrap_err(), Rejection::NotAllContributed);
    c.contribution_bitmap = 0b111;
    c.current_recipient_index = 1;
    finalize_round(&mut c, account(1), Some(admin)).unwrap();
    assert!(c.is_round_finalized);
    assert_eq!(c.current_pot_recipient, Some(account(101)));
    assert_eq!(finalize_round(&mut c, admin, Some(admin)).unwrap_err(), Rejection::RoundAlreadyFinalized);
}

#[test]
fn claim_pot_checks() {
    let mut c = circle(3);
    let user = account(100);
    assert_eq!(claim_pot(&mut c, user, Some(0), None, None, None, 5).unwrap_err(), Rejection::RoundNotFinalized);
    c.is_round_finalized = true;
    assert_eq!(claim_pot(&mut c, user, Some(0), None, None, None, 5).unwrap_err(), Rejection::NoRecipientSet);
    c.current_pot_recipient = Some(account(101));
    assert_eq!(claim_pot(&mut c, user, Some(0), None, None, None, 5).unwrap_err(), Rejection::UnauthorizedRecipient);
    c.current_pot_recipient = Some(user);
    assert_eq!(claim_pot(&mut c, user, None, None, None, None, 5).unwrap_err(), Rejection::PayoutNotScheduled);
    assert_eq!(claim_pot(&mut c, user, Some(6), None, None, None, 5).unwrap_err(), Rejection::PayoutTooEarly);
    assert!(c.is_round_finalized);
}

#[test]
fn claim_pot_pays_rewards_and_releases_collateral() {
    let mut c = circle(3);
    let user = account(100);
    c.is_round_finalized = true;
    c.current_pot_recipient = Some(user);
    c.current_recipient_index = 2;
    c.contribution_bitmap = 0b111;
    let mut m = member(user, 0);
    m.contribution_count = 5;
    let k = CollateralInfo {
        member: user,
        circle_id: 4,
        amount: 10_000,
        status: CollateralStatus::Staked,
        staked_timestamp: 1,
        release_timestamp: None,
    };
    let ri = ReliabilityIndex { points: 980, successful_cycles: 2, default_count: 1, last_update: 0 };
    let out = claim_pot(&mut c, user, Some(5), Some(m), Some(ri), Some(k), 5).unwrap();
    assert_eq!(out.pot_amount, 3_000);
    let new_ri = out.ri.unwrap();
    assert_eq!(new_ri.points, 1000);
    assert_eq!(new_ri.successful_cycles, 3);
    assert_eq!(new_ri.last_update, 5);
    let released = out.collateral.unwrap();
    assert_eq!(released.status, CollateralStatus::Released);
    assert_eq!(released.release_timestamp, Some(5));
    assert_eq!(out.collateral_refund, Some(10_000));
    assert!(!c.is_round_finalized);
    assert_eq!(c.contribution_bitmap, 0);
    assert_eq!(c.current_recipient_index, 0);
    assert_eq!(c.current_pot_recipient, None);
}

#[test]
fn claim_pot_without_full_cycle() {
    let mut c = circle(2);
    let user = account(100);
    c.is_round_finalized = true;
    c.current_pot_recipient = Some(user);
    let out = claim_pot(&mut c, user, Some(1), Some(member(user, 0)), None, None, 5).unwrap();
    assert_eq!(out.pot_amount, 2_000);
    assert!(out.ri.is_none());
    assert!(out.collateral.is_none());
    assert_eq!(c.current_recipient_index, 1);
}

#[test]
fn deposit_charges_discounted_fee() {
    let c = circle(3);
    let mut m = member(account(100), 0);
    let good = UserReputationMetrics {
        reliability_score: 9_000,
        social_capital_score: 9_000,
        total_cycles: 0,
        perfect_cycles: 0,
        total_volume_saved: 0,
        last_activity: 100,
        last_decay: 100,
        on_time_contributions: 0,
        total_contributions: 0,
    };
    let out = deposit(&c, &mut m, Some(200), Some(good), None, 500);
    // 75% off a 2% fee: 0.5% of 1000
    assert_eq!(out.fee_amount, 5);
    assert_eq!(out.total_amount, 1_005);
    assert!(out.was_on_time);
    let stored = out.metrics.unwrap();
    assert_eq!(stored.total_contributions, 1);
    assert_eq!(stored.reliability_score, 10_000);
    assert_eq!(m.contribution_count, 1);
    assert_eq!(m.total_contributions, 1_000);
    assert!(m.has_contributed_current_round);
    assert_eq!(m.last_contribution_time, 500);

    let late = deposit(&c, &mut m, None, None, Some(false), 20_000);
    assert_eq!(late.fee_amount, 10);
    assert!(!late.was_on_time);
    assert_eq!(late.metrics, None);
    assert_eq!(m.contribution_count, 2);
}

#[test]
fn settle_contribution_with_buddy() {
    let mut c = circle(3);
    let mut m = member(account(100), 2);
    assert_eq!(contribution_charge(&c, 1_000, 50), (20, 1_070));
    assert_eq!(
        settle_contribution(&mut c, &mut m, 1_000, 50, false, 5_000, 0, 9).unwrap_err(),
        Rejection::InsufficientFunds
    );
    m.buddy = Some(account(101));
    assert_eq!(
        settle_contribution(&mut c, &mut m, 1_000, 50, false, 1_069, 0, 9).unwrap_err(),
        Rejection::InsufficientFundsAndBuddyDeposit
    );
    assert_eq!(
        settle_contribution(&mut c, &mut m, 1_000, 50, false, 2_000, 300, 9).unwrap(),
        Settlement { buddy_balance: Some(930), group_reserve: 350 }
    );
    assert_eq!(c.insurance_balance, 20);
    assert_eq!(c.contribution_bitmap, 0b100);
    assert_eq!(m.contribution_count, 1);
    assert_eq!(m.last_contribution_time, 9);
    assert_eq!(
        settle_contribution(&mut c, &mut m, 1_000, 0, true, 0, 350, 10).unwrap(),
        Settlement { buddy_balance: None, group_reserve: 350 }
    );
    assert_eq!(c.insurance_balance, 40);
}

#[test]
fn collateral_staking() {
    let mut c = circle(3);
    let user = account(100);
    // 20% of 50 000
    assert_eq!(stake_collateral(&c, user, None, 9_999, 3).unwrap_err(), Rejection::InsufficientCollateral);
    let k = stake_collateral(&c, user, None, 10_000, 3).unwrap();
    assert_eq!(k.status, CollateralStatus::Staked);
    assert_eq!(k.amount, 10_000);
    assert_eq!(k.staked_timestamp, 3);
    assert_eq!(stake_collateral(&c, user, Some(k), 10_000, 3).unwrap_err(), Rejection::CollateralAlreadyStaked);
    assert_eq!(slash_collateral(k).status, CollateralStatus::Slashed);
    assert_eq!(release_collateral(k).status, CollateralStatus::Released);
    c.requires_collateral = false;
    assert_eq!(stake_collateral(&c, user, None, 10_000, 3).unwrap_err(), Rejection::CollateralNotRequired);
}

#[test]
fn batch_payout_splits_pot() {
    let mut c = circle(3);
    assert!(distribute_batch_payout(&c, 1).is_none());
    c.winners_per_round = 2;
    let p = distribute_batch_payout(&c, 77).unwrap();
    assert_eq!(p.record.total_pot, 3_000);
    assert_eq!(p.record.net_payout_per_winner, 1_500);
    assert_eq!(p.record.dust_amount, 0);
    assert_eq!(p.record.winners, vec![account(100), account(101)]);
    assert_eq!(p.claims.len(), 2);
    assert_eq!(p.claims[1].recipient, account(101));
    assert_eq!(p.claims[1].amount_claimed, 1_500);
    assert_eq!(p.claims[1].claim_timestamp, 77);
    c.winners_per_round = 7;
    let q = distribute_batch_payout(&c, 1).unwrap();
    assert_eq!(q.record.net_payout_per_winner, 428);
    assert_eq!(q.record.dust_amount, 4);
    assert_eq!(q.record.net_payout_per_winner * 7 + q.record.dust_amount, q.record.total_pot);
    assert_eq!(q.record.winners.len(), 3);
    assert_eq!(q.record.total_winners, 7);
}

#[test]
fn tranche_payout() {
    let mut c = circle(3);
    c.current_recipient_index = 1;
    let mut s = distribute_payout(&c);
    assert_eq!(s.winner, account(101));
    assert_eq!(s.total_pot, 3_000);
    assert_eq!(s.immediate_payout, 2_100);
    assert_eq!(s.tranches.len(), 1);
    assert_eq!(s.tranches[0].amount, 450);
    assert_eq!(s.tranches[0].unlock_round, 5);
    assert_eq!(s.tranches[0].status, TrancheStatus::Pending);
    claim_tranche(&mut s);
    assert_eq!(s.tranches[0].status, TrancheStatus::Claimed);
    execute_tranche_clawback(&mut s);
    assert_eq!(s.tranches[0].status, TrancheStatus::ClawedBack);
}

#[test]
fn basket_deposit() {
    let c = circle(3);
    let basket = basket_config(&vec![account(5), account(6)], &vec![7_000, 3_000, 1]);
    assert_eq!(basket.len(), 2);
    assert_eq!(basket[1].token, account(6));
    assert_eq!(basket[1].weight_bps, 3_000);
    let mut m = member(account(100), 0);
    assert_eq!(deposit_basket(&c, &basket, &mut m), vec![700, 300]);
    assert_eq!(m.contribution_count, 1);
    assert!(m.has_contributed_current_round);
}

#[test]
fn anchor_deposit() {
    let mut m = member(account(100), 0);
    let r = deposit_for_user(
        &mut m,
        account(3),
        account(100),
        4,
        250,
        String::from("memo"),
        String::from("ref"),
        String::from("SEP-24"),
        66,
    );
    assert_eq!(m.total_contributions, 250);
    assert!(m.has_contributed_current_round);
    assert_eq!(r.amount, 250);
    assert_eq!(r.timestamp, 66);
    assert_eq!(r.sep_type, "SEP-24");
    assert!(r.processed && r.compliance_verified);
}

#[test]
fn frozen_payout_and_swaps() {
    let w = account(8);
    assert_eq!(review_frozen_payout(None, true), (None, false));
    assert_eq!(review_frozen_payout(Some((90, Some(w))), true), (Some((w, 90)), true));
    assert_eq!(review_frozen_payout(Some((90, Some(w))), false), (None, true));
    assert_eq!(review_frozen_payout(Some((90, None)), true), (None, true));
    let mut cfg = DexSwapConfig { swap_threshold_xlm: 40, total_swapped_xlm: 100, last_swap_timestamp: 0 };
    let r = trigger_dex_swap(&mut cfg, 9);
    assert_eq!(cfg.total_swapped_xlm, 140);
    assert_eq!(cfg.last_swap_timestamp, 9);
    assert!(r.success);
    assert_eq!(r.xlm_received, 40);
    assert_eq!(r.usdc_amount, 100_000_000);
}

#[test]
fn screened_pot_claim() {
    let user = account(100);
    let mut c = circle(3);
    assert_eq!(
        screen_pot_claim(&mut c, user, Some(true), true, None).unwrap(),
        PotScreening::Frozen { amount: 3_000, winner: user }
    );
    assert!(c.is_active);
    assert_eq!(screen_pot_claim(&mut c, user, Some(false), true, None).unwrap_err(), Rejection::LockedByDefault);
    assert_eq!(Rejection::LockedByDefault.message(), "locked due to a default");
    assert_eq!(
        screen_pot_claim(&mut c, user, None, false, Some(account(7))).unwrap(),
        PotScreening::Payout { recipient: account(7), amount: 3_000 }
    );
    assert!(!c.is_active);
    let mut d = circle(2);
    assert_eq!(
        screen_pot_claim(&mut d, user, Some(false), false, None).unwrap(),
        PotScreening::Payout { recipient: user, amount: 2_000 }
    );
}

#[test]
fn address_recovery() {
    let mut c = circle(2);
    sorosusu::circle::propose_address_change(&mut c, account(100), account(200));
    assert_eq!(c.recovery_old_address, Some(account(100)));
    assert_eq!(c.recovery_new_address, Some(account(200)));
    sorosusu::circle::vote_for_recovery(&mut c);
    sorosusu::circle::vote_for_recovery(&mut c);
    assert_eq!(c.recovery_votes_bitmap, 1);
}

#[test]
fn high_value_threshold() {
    // 5 000 XLM exactly is not high-value; one stroop more is.
    let at = create_circle(1, account(1), 1_000_000_000, 50, account(2), 100, 0);
    assert!(!at.requires_collateral);
    assert_eq!(at.total_cycle_value, 50_000_000_000);
    let above = create_circle(2, account(1), 1_000_000_001, 50, account(2), 100, 0);
    assert!(above.requires_collateral);
    assert_eq!(above.collateral_bps, 2_000);
    assert_eq!(above.member_count, 0);
}
