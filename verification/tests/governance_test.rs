use sorosusu::appeals::{appeal_penalty, mark_member_defaulted, reputation_amnesty, vote_on_appeal};
use sorosusu::audit::{query_audit_by_actor, query_audit_by_resource, query_audit_by_time, AuditAction, AuditEntry};
use sorosusu::governance::{
    create_proposal, execute_proposal, get_proposal_stats, get_voting_power, quadratic_vote, update_voting_power,
};
use sorosusu::leniency::{finalize_leniency_vote, get_social_capital, request_leniency, vote_on_leniency};
use sorosusu::{
    Account, AppealStatus, CircleInfo, CollateralInfo, CollateralStatus, Error, LeniencyRequestStatus, LeniencyVote,
    Member, MemberStatus, ProposalStatus, ProposalType, QuadraticVoteChoice, Rejection, ReliabilityIndex, VotingPower,
};

fn account(n: u128) -> Account {
    Account { is_contract: false, key_hi: 2, key_lo: n }
}

fn circle(members: u32) -> CircleInfo {
    CircleInfo {
        id: 4,
        creator: account(1),
        contribution_amount: 1_000,
        max_members: 10,
        member_count: members,
        token: account(2),
        cycle_duration: 86_400,
        deadline_timestamp: 10_000,
        is_active: true,
        is_round_finalized: false,
        current_recipient_index: 0,
        current_pot_recipient: None,
        contribution_bitmap: 0,
        insurance_balance: 0,
        insurance_fee_bps: 0,
        is_insurance_used: false,
        requires_collateral: false,
        collateral_bps: 0,
        total_cycle_value: 0,
        member_addresses: Vec::new(),
        winners_per_round: 0,
        batch_payout_enabled: false,
        round_number: 0,
        recovery_old_address: None,
        recovery_new_address: None,
        recovery_votes_bitmap: 0,
    }
}

fn member(addr: Account, status: MemberStatus) -> Member {
    Member {
        address: addr,
        index: 0,
        contribution_count: 0,
        last_contribution_time: 0,
        status,
        tier_multiplier: 1,
        referrer: None,
        buddy: None,
        has_contributed_current_round: false,
        total_contributions: 0,
    }
}

#[test]
fn quadratic_voting_costs_the_square() {
    let mut p = create_proposal(
        account(1),
        4,
        ProposalType::ChangeQuorum,
        String::from("t"),
        String::from("d"),
        String::from("{}"),
        100,
    );
    assert_eq!(p.status, ProposalStatus::Active);
    assert_eq!(p.voting_end_timestamp, 86_500);
    let mut vp = VotingPower { member: account(3), circle_id: 4, token_balance: 0, quadratic_power: 30, last_updated: 0 };
    let m = quadratic_vote(&mut p, &mut vp, 5, QuadraticVoteChoice::For, None, 7).unwrap();
    assert_eq!(vp.quadratic_power, 5);
    assert_eq!(p.for_votes, 25);
    assert_eq!(p.against_votes, 0);
    assert_eq!(m.social_capital_score, 5_010);
    assert_eq!(m.last_activity, 7);
    assert_eq!(
        quadratic_vote(&mut p, &mut vp, 3, QuadraticVoteChoice::Against, None, 8).unwrap_err(),
        Rejection::InsufficientVotingPower
    );
    assert_eq!(vp.quadratic_power, 5);
    quadratic_vote(&mut p, &mut vp, 2, QuadraticVoteChoice::Abstain, None, 8).unwrap();
    assert_eq!(vp.quadratic_power, 1);
    assert_eq!(p.for_votes + p.against_votes, 25);
    execute_proposal(&mut p);
    assert_eq!(p.status, ProposalStatus::Approved);
}

#[test]
fn voting_power_formula() {
    let ri = ReliabilityIndex { points: 500, successful_cycles: 0, default_count: 0, last_update: 0 };
    let vp = update_voting_power(account(3), 4, 10_000_000, Some(ri), 9);
    // 10 000 000 * 500 / 1000 / 1000
    assert_eq!(vp.quadratic_power, 5_000);
    assert_eq!(vp.last_updated, 9);
    assert_eq!(update_voting_power(account(3), 4, 10, None, 9).quadratic_power, 1);
    assert_eq!(update_voting_power(account(3), 4, 0, None, 9).quadratic_power, 0);
    assert_eq!(update_voting_power(account(3), 4, -5, None, 9).quadratic_power, 0);
    let none = get_voting_power(None, account(3), 4);
    assert_eq!(none.quadratic_power, 0);
    assert_eq!(get_voting_power(Some(vp), account(3), 4), vp);
    assert_eq!(get_proposal_stats(None).total_proposals, 0);
}

#[test]
fn leniency_vote() {
    let requester = account(5);
    let mut r = request_leniency(requester, 4, String::from("sick"), 1_000);
    assert_eq!(r.voting_deadline, 1_000 + 86_400);
    assert_eq!(r.status, LeniencyRequestStatus::Pending);
    assert_eq!(
        vote_on_leniency(requester, &mut r, None, None, None, None, LeniencyVote::Approve, 1_100).unwrap_err(),
        Rejection::CannotVoteForSelf
    );
    assert!(vote_on_leniency(account(6), &mut r, None, None, None, None, LeniencyVote::Reject, 1_100).unwrap().is_none());
    assert_eq!(r.reject_votes, 1);
    assert_eq!(r.status, LeniencyRequestStatus::Pending);
    let g = vote_on_leniency(account(7), &mut r, None, None, None, None, LeniencyVote::Approve, 1_200).unwrap().unwrap();
    assert_eq!(r.status, LeniencyRequestStatus::Approved);
    assert_eq!(r.total_votes_cast, 2);
    assert_eq!(g.requester_capital.leniency_received, 1);
    assert_eq!(g.requester_capital.trust_score, 55);
    assert_eq!(g.voter_capital.member, account(7));
    assert_eq!(g.voter_capital.leniency_given, 1);
    assert_eq!(g.requester_metrics.social_capital_score, 5_025);
    assert_eq!(g.voter_metrics.social_capital_score, 5_050);
    assert_eq!(g.voter_metrics.last_activity, 1_200);
    // Later votes on a granted request are counted but credit nobody again.
    assert!(vote_on_leniency(account(8), &mut r, None, None, None, None, LeniencyVote::Approve, 1_300).unwrap().is_none());
    assert!(vote_on_leniency(account(9), &mut r, None, None, None, None, LeniencyVote::Reject, 1_300).unwrap().is_none());
    assert_eq!(r.approve_votes, 2);
    assert_eq!(r.total_votes_cast, 4);
    assert_eq!(get_social_capital(None, requester, 4).trust_score, 50);
    let mut r2 = request_leniency(requester, 4, String::from("x"), 0);
    finalize_leniency_vote(&mut r2);
    assert_eq!(r2.status, LeniencyRequestStatus::Approved);
}

#[test]
fn default_then_amnesty() {
    let c = circle(4);
    let admin = account(9);
    let who = account(5);
    let m = member(who, MemberStatus::Active);
    let k = CollateralInfo {
        member: who,
        circle_id: 4,
        amount: 10,
        status: CollateralStatus::Staked,
        staked_timestamp: 0,
        release_timestamp: None,
    };
    assert_eq!(
        mark_member_defaulted(&c, account(77), Some(admin), who, Some(m), None, None, None, 3).unwrap_err(),
        Rejection::Unauthorized
    );
    assert_eq!(
        mark_member_defaulted(&c, admin, None, who, Some(m), None, None, None, 3).unwrap_err(),
        Rejection::NotInitialized
    );
    assert_eq!(
        mark_member_defaulted(&c, admin, Some(admin), who, None, None, None, None, 3).unwrap_err(),
        Rejection::MemberNotFound
    );
    let listed = vec![account(20)];
    let out = mark_member_defaulted(&c, admin, Some(admin), who, Some(m), None, Some(listed.clone()), Some(k), 3).unwrap();
    assert_eq!(out.member.status, MemberStatus::Defaulted);
    assert_eq!(out.ri.points, 800);
    assert_eq!(out.ri.default_count, 1);
    assert_eq!(out.reported_amount, 4_000);
    assert_eq!(out.defaulted_members, Some(vec![account(20), who]));
    assert_eq!(out.collateral.unwrap().status, CollateralStatus::Slashed);
    assert_eq!(
        mark_member_defaulted(&c, admin, Some(admin), who, Some(out.member), None, None, None, 3).unwrap_err(),
        Rejection::MemberAlreadyDefaulted
    );

    assert_eq!(appeal_penalty(who, 4, String::from("r"), None, false, 10).unwrap_err(), Rejection::MemberNotFound);
    assert_eq!(appeal_penalty(who, 4, String::from("r"), Some(m), false, 10).unwrap_err(), Rejection::OnlyDefaultedMayAppeal);
    assert_eq!(
        appeal_penalty(who, 4, String::from("r"), Some(out.member), true, 10).unwrap_err(),
        Rejection::AppealAlreadyExists
    );
    let appeal = appeal_penalty(who, 4, String::from("r"), Some(out.member), false, 10).unwrap();
    assert_eq!(appeal.status, AppealStatus::Pending);
    assert_eq!(appeal.voting_deadline, 10 + 86_400);

    // four members: three other voters, of whom 3 * 66 / 100 = 1 approval carries the appeal
    let list = out.defaulted_members.clone();
    let v = vote_on_appeal(Some(appeal), who, false, true, Some(4), true, Some(out.member), Some(out.ri), list, 20).unwrap();
    assert_eq!(v.appeal.for_votes, 1);
    assert_eq!(v.appeal.status, AppealStatus::Approved);
    let amnesty = v.amnesty.unwrap();
    assert_eq!(amnesty.ri.points, 1000);
    assert_eq!(amnesty.member.status, MemberStatus::Active);
    assert_eq!(amnesty.defaulted_members, Some(listed));
}

#[test]
fn appeal_vote_refusals_and_rejection() {
    let who = account(5);
    let defaulted = member(who, MemberStatus::Defaulted);
    let fresh = || appeal_penalty(who, 4, String::from("r"), Some(defaulted), false, 10).unwrap();
    assert_eq!(
        vote_on_appeal(None, who, false, true, Some(4), true, None, None, None, 20).unwrap_err(),
        Rejection::AppealNotFound
    );
    assert_eq!(
        vote_on_appeal(Some(fresh()), who, false, true, Some(4), true, None, None, None, 86_411).unwrap_err(),
        Rejection::VotingPeriodExpired
    );
    assert_eq!(
        vote_on_appeal(Some(fresh()), who, true, true, Some(4), true, None, None, None, 20).unwrap_err(),
        Rejection::AlreadyVoted
    );
    assert_eq!(
        vote_on_appeal(Some(fresh()), who, false, false, Some(4), true, None, None, None, 20).unwrap_err(),
        Rejection::VoterNotFound
    );
    assert_eq!(
        vote_on_appeal(Some(fresh()), who, false, true, None, true, None, None, None, 20).unwrap_err(),
        Rejection::CircleNotFound
    );
    // ten members: nine voters, five approvals needed; five rejections make it unreachable
    let mut a = fresh();
    for i in 0..4 {
        let v = vote_on_appeal(Some(a), who, false, true, Some(10), false, None, None, None, 20 + i).unwrap();
        assert_eq!(v.appeal.status, AppealStatus::Pending);
        assert!(v.amnesty.is_none());
        a = v.appeal;
    }
    let v = vote_on_appeal(Some(a), who, false, true, Some(10), false, None, None, None, 30).unwrap();
    assert_eq!(v.appeal.against_votes, 5);
    assert_eq!(v.appeal.status, AppealStatus::Rejected);
    assert_eq!(
        vote_on_appeal(Some(v.appeal), who, false, true, Some(10), true, None, None, None, 31).unwrap_err(),
        Rejection::AppealAlreadyFinalized
    );
    // approval carried but the requester's profile is missing: the vote is refused
    let mut b = fresh();
    b.for_votes = 4;
    assert_eq!(
        vote_on_appeal(Some(b), who, false, true, Some(10), true, None, None, None, 20).unwrap_err(),
        Rejection::MemberNotFound
    );
}

#[test]
fn amnesty_checks() {
    let who = account(5);
    let m = member(who, MemberStatus::Defaulted);
    assert_eq!(reputation_amnesty(None, who, None, Some(m), None, 1).unwrap_err(), Rejection::AppealNotFound);
    assert_eq!(
        reputation_amnesty(Some(AppealStatus::Pending), who, None, Some(m), None, 1).unwrap_err(),
        Rejection::AppealNotApproved
    );
    let out = reputation_amnesty(Some(AppealStatus::Approved), who, None, Some(m), Some(vec![who, account(6), who]), 1).unwrap();
    assert_eq!(out.ri.points, 1000);
    assert_eq!(out.defaulted_members, Some(vec![account(6)]));
    assert!(reputation_amnesty(Some(AppealStatus::Approved), who, None, Some(m), None, 1).unwrap().defaulted_members.is_none());
}

#[test]
fn audit_queries() {
    let e = |id: u64, actor: u128, res: u64, ts: u64| AuditEntry {
        id,
        actor: account(actor),
        action: AuditAction::AdminAction,
        resource_id: res,
        timestamp: ts,
    };
    let entries = vec![e(1, 1, 10, 100), e(2, 2, 10, 150), e(3, 1, 11, 200), e(4, 1, 10, 250)];
    let by_actor: Vec<u64> = query_audit_by_actor(&entries, account(1), 100, 200).iter().map(|x| x.id).collect();
    assert_eq!(by_actor, vec![1, 3]);
    let by_res: Vec<u64> = query_audit_by_resource(&entries, 10, 120, 300).iter().map(|x| x.id).collect();
    assert_eq!(by_res, vec![2, 4]);
    let by_time: Vec<u64> = query_audit_by_time(&entries, 150, 250).iter().map(|x| x.id).collect();
    assert_eq!(by_time, vec![2, 3, 4]);
    assert!(query_audit_by_time(&entries, 300, 200).is_empty());
}

#[test]
fn error_codes() {
    assert_eq!(Error::Unauthorized.code(), 1);
    assert_eq!(Error::CircleFull.code(), 3);
    assert_eq!(Error::InsufficientCollateral.code(), 15);
    assert_eq!(Error::AppealAlreadyFinalized.code(), 37);
}

#[test]
fn duration_proposal_votes() {
    let mut p = sorosusu::governance::propose_duration(172_800, 5);
    assert_eq!(p.votes_for, 1);
    assert_eq!(p.votes_against, 0);
    assert_eq!(p.end_time, 5 + 86_400);
    assert!(p.is_active);
    sorosusu::governance::vote_duration(&mut p, true);
    sorosusu::governance::vote_duration(&mut p, false);
    assert_eq!((p.votes_for, p.votes_against), (2, 1));
}

#[test]
fn rejection_messages() {
    assert_eq!(Rejection::Unauthorized.message(), "Unauthorized");
    assert_eq!(Rejection::NotAllContributed.message(), "Not all contributed");
    assert_eq!(Rejection::PayoutTooEarly.message(), "Payout too early");
    assert_eq!(Rejection::OnlyDefaultedMayAppeal.message(), "Only defaulted members can appeal");
    assert_eq!(Rejection::InsufficientFundsAndBuddyDeposit.message(), "Insufficient funds and buddy deposit");
}
