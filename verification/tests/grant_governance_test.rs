use sorosusu::grants::{create_voting_snapshot_for_audit, terminate_grant_amicably, SnapshotResult};
use sorosusu::impact::{
    certificate_metadata, initialize_impact_certificate, progress_bar_data, update_milestone_progress, ImpactBadge,
    ImpactTier, MilestoneProgress,
};
use sorosusu::Account;

fn account(n: u128) -> Account {
    Account { is_contract: false, key_hi: 0, key_lo: n }
}

// The ledger of a fresh test environment starts at time 0.
const START: u64 = 0;

#[test]
fn test_grant_settlement_calculation() {
    let grantee = account(3);
    let grant_id = 1u64;
    let total_grant = 10_000_000_000i128;
    let grant_duration = 86400u64 * 30;
    let start_timestamp = START;
    let now = start_timestamp + (86400 * 15);

    let settlement = terminate_grant_amicably(grant_id, grantee, total_grant, grant_duration, start_timestamp, now);

    assert_eq!(settlement.grant_id, grant_id);
    assert_eq!(settlement.grantee, grantee);
    assert_eq!(settlement.total_grant_amount, total_grant);
    let expected_drip = (total_grant * 15) / 30;
    assert!((settlement.amount_dripped - expected_drip).abs() < 1000);
    assert_eq!(settlement.work_in_progress_pay, settlement.amount_dripped);
    assert_eq!(settlement.treasury_return, total_grant - settlement.work_in_progress_pay);
}

#[test]
fn test_grant_settlement_full_duration() {
    let grantee = account(3);
    let grant_id = 2u64;
    let total_grant = 5_000_000_000i128;
    let grant_duration = 86400u64 * 10;
    let start_timestamp = START;
    let now = start_timestamp + grant_duration;

    let settlement = terminate_grant_amicably(grant_id, grantee, total_grant, grant_duration, start_timestamp, now);

    assert_eq!(settlement.work_in_progress_pay, total_grant);
    assert_eq!(settlement.treasury_return, 0);
}

#[test]
fn test_grant_settlement_zero_elapsed() {
    let grantee = account(3);
    let grant_id = 3u64;
    let total_grant = 8_000_000_000i128;
    let grant_duration = 86400u64 * 7;
    let start_timestamp = START;

    let settlement = terminate_grant_amicably(grant_id, grantee, total_grant, grant_duration, start_timestamp, start_timestamp);

    assert_eq!(settlement.work_in_progress_pay, 0);
    assert_eq!(settlement.treasury_return, total_grant);
}

#[test]
fn test_voting_snapshot_creation() {
    let proposal_id = 1u64;
    let voter1 = account(10);
    let voter2 = account(11);
    let voter3 = account(12);

    let mut votes = Vec::new();
    votes.push((voter1, 100u32, String::from("For")));
    votes.push((voter2, 50u32, String::from("Against")));
    votes.push((voter3, 25u32, String::from("Abstain")));

    let quorum_required = 150u32;

    let snapshot = create_voting_snapshot_for_audit(proposal_id, &votes, quorum_required as u64);

    assert_eq!(snapshot.proposal_id, proposal_id);
    assert_eq!(snapshot.total_votes, 175);
    assert_eq!(snapshot.for_votes, 100);
    assert_eq!(snapshot.against_votes, 50);
    assert_eq!(snapshot.abstain_votes, 25);
    assert_eq!(snapshot.quorum_required, quorum_required);
    assert!(snapshot.quorum_met);
    assert_eq!(snapshot.result.symbol(), "APPROVED");
    assert_eq!(snapshot.result, SnapshotResult::Approved);
    assert_eq!(snapshot.vote_hash.len(), 32);
}

#[test]
fn test_voting_snapshot_quorum_not_met() {
    let proposal_id = 2u64;
    let voter1 = account(10);
    let mut votes = Vec::new();
    votes.push((voter1, 50u32, String::from("For")));

    let quorum_required = 100u32;

    let snapshot = create_voting_snapshot_for_audit(proposal_id, &votes, quorum_required as u64);

    assert!(!snapshot.quorum_met);
    assert_eq!(snapshot.result.symbol(), "QUORUM_NOT_MET");
}

#[test]
fn test_impact_certificate_initialization() {
    let grantee = account(3);
    let certificate_id = 1u128;
    let total_phases = 5u32;
    let metadata_uri = String::from("https://metadata.sorosusu.com/impact/1");

    let cert = initialize_impact_certificate(false, grantee, certificate_id, total_phases, metadata_uri).unwrap();

    let data = progress_bar_data(&cert);
    // Starts at 0% progress, with the NEWCOMER badge, in the BRONZE tier (50% impact score).
    assert_eq!(data.progress_percent, 0);
    assert_eq!(data.badge, ImpactBadge::Newcomer);
    assert_eq!(data.badge.symbol(), "NEWCOMER");
    assert_eq!(data.tier, ImpactTier::Bronze);
    assert_eq!(cert.impact_score, 5000);
    assert_eq!(data.status, MilestoneProgress::NotStarted);
}

#[test]
fn test_milestone_progress_updates() {
    let grantee = account(3);
    let certificate_id = 2u128;
    let total_phases = 3u32;
    let metadata_uri = String::from("https://metadata.sorosusu.com/impact/2");
    let mut cert = initialize_impact_certificate(false, grantee, certificate_id, total_phases, metadata_uri).unwrap();

    let cert1 = update_milestone_progress(&mut cert, 1, 500).unwrap();
    assert_eq!(cert1.phases_completed, 1);
    assert_eq!(cert1.total_phases, 2);
    assert!(cert1.impact_score > 5000);

    let cert2 = update_milestone_progress(&mut cert, 2, 1000).unwrap();
    assert_eq!(cert2.phases_completed, 2);
    assert!(cert2.impact_score > cert1.impact_score);

    assert_ne!(cert1.on_chain_badge, cert2.on_chain_badge);
}

#[test]
fn test_progress_bar_visual_data() {
    let grantee = account(3);
    let certificate_id = 3u128;
    let metadata_uri = String::from("https://metadata.sorosusu.com/impact/3");
    let mut cert = initialize_impact_certificate(false, grantee, certificate_id, 4, metadata_uri).unwrap();

    update_milestone_progress(&mut cert, 2, 1000).unwrap();

    let progress_data = progress_bar_data(&cert);
    assert_eq!(progress_data.progress_percent, 50);
    assert_eq!(progress_data.badge, ImpactBadge::Achiever);
    assert_eq!(progress_data.tier, ImpactTier::Silver);
}

#[test]
fn test_impact_certificate_completion() {
    let grantee = account(3);
    let certificate_id = 4u128;
    let metadata_uri = String::from("https://metadata.sorosusu.com/impact/4");
    let mut cert = initialize_impact_certificate(false, grantee, certificate_id, 3, metadata_uri).unwrap();

    update_milestone_progress(&mut cert, 1, 500).unwrap();
    update_milestone_progress(&mut cert, 2, 500).unwrap();
    let final_cert = update_milestone_progress(&mut cert, 3, 1000).unwrap();

    assert_eq!(final_cert.milestone_status, MilestoneProgress::Completed);
    assert_eq!(final_cert.phases_completed, final_cert.total_phases);
    assert_eq!(final_cert.on_chain_badge.symbol(), "IMPACT_MASTER");
}

#[test]
fn test_full_governance_workflow() {
    let admin = account(1);
    let grantee = account(3);

    // 1. Initialize impact certificate for grant recipient
    let certificate_id = 100u128;
    let mut cert = initialize_impact_certificate(
        false,
        grantee,
        certificate_id,
        5,
        String::from("https://metadata.sorosusu.com/impact/100"),
    )
    .unwrap();

    // 2. Create voting snapshot for grant approval
    let proposal_id = 1u64;
    let mut votes = Vec::new();
    votes.push((admin, 100u32, String::from("For")));
    let snapshot = create_voting_snapshot_for_audit(proposal_id, &votes, 50);
    assert_eq!(snapshot.result.symbol(), "APPROVED");

    // 3. Simulate grant progress - update milestone
    update_milestone_progress(&mut cert, 1, 200).unwrap();

    // 4. Grant cancelled amicably - calculate settlement
    let grant_id = 1u64;
    let total_grant = 20_000_000_000i128;
    let grant_duration = 86400u64 * 60;
    let start_timestamp = START;
    let now = start_timestamp + (86400 * 30);
    let settlement = terminate_grant_amicably(grant_id, grantee, total_grant, grant_duration, start_timestamp, now);
    assert!((settlement.work_in_progress_pay - (total_grant / 2)).abs() < 1000);

    // 5. The certificate still shows its progress
    let final_cert = progress_bar_data(&cert);
    assert_eq!(final_cert.progress_percent, 20);
    assert_eq!(certificate_metadata(&cert).grantee, grantee);
}

#[test]
fn impact_certificate_refusals() {
    let grantee = account(3);
    let uri = String::from("u");
    assert_eq!(
        initialize_impact_certificate(true, grantee, 1, 3, uri.clone()).unwrap_err().message(),
        "Certificate already exists"
    );
    assert_eq!(
        initialize_impact_certificate(false, grantee, 1, 0, uri.clone()).unwrap_err().message(),
        "Certificate needs at least one phase"
    );
    let mut cert = initialize_impact_certificate(false, grantee, 1, 3, uri).unwrap();
    assert_eq!(update_milestone_progress(&mut cert, 4, 100).unwrap_err().message(), "Phase beyond the planned phases");
    assert_eq!(cert.phases_completed, 0);
    assert_eq!(cert.impact_score, 5000);
    // The score stays within 0..=10 000.
    update_milestone_progress(&mut cert, 1, 1_000_000).unwrap();
    assert_eq!(cert.impact_score, 10_000);
    assert_eq!(progress_bar_data(&cert).tier, ImpactTier::Diamond);
    update_milestone_progress(&mut cert, 1, -1_000_000).unwrap();
    assert_eq!(cert.impact_score, 0);
}
