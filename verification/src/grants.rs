//! Grant settlement and audit snapshots of governance votes.
use vstd::prelude::*;

use crate::account::Account;
use crate::reputation::div_toward_zero;

verus! {

/// Settlement of a grant terminated before its end.
#[derive(Clone, Copy, Debug, PartialEq, Eq, Structural)]
pub struct GrantSettlement {
    pub grant_id: u64,
    pub grantee: Account,
    pub total_grant_amount: i128,
    pub amount_dripped: i128,
    pub work_in_progress_pay: i128,
    pub treasury_return: i128,
}

/// The part of a grant that has dripped to the grantee after `elapsed` of
/// `duration` seconds: all of it once the duration is over, the elapsed share
/// of it before.
pub open spec fn dripped_of(total: i128, duration: u64, elapsed: u64) -> int {
    if elapsed >= duration {
        total as int
    } else {
        div_toward_zero((total as int) * (elapsed as int), duration as int)
    }
}

/// Terminates a grant amicably at `now`: the grantee is paid for the work in
/// progress (what has dripped since `start`) and the rest goes back to the
/// treasury.
pub fn terminate_grant_amicably(
    grant_id: u64,
    grantee: Account,
    total: i128,
    duration: u64,
    start: u64,
    now: u64,
) -> (s: GrantSettlement)
    requires
        now >= start,
        now - start < duration ==> i128::MIN <= (total as int) * ((now - start) as int) <= i128::MAX,
        i128::MIN <= total - dripped_of(total, duration, (now - start) as u64) <= i128::MAX,
    ensures
        s == (GrantSettlement {
            grant_id,
            grantee,
            total_grant_amount: total,
            amount_dripped: dripped_of(total, duration, (now - start) as u64) as i128,
            work_in_progress_pay: dripped_of(total, duration, (now - start) as u64) as i128,
            treasury_return: (total - dripped_of(total, duration, (now - start) as u64)) as i128,
        }),
{
    let elapsed = now - start;
    let dripped: i128 = if elapsed >= duration {
        total
    } else {
        (total * (elapsed as i128)) / (duration as i128)
    };
    GrantSettlement {
        grant_id,
        grantee,
        total_grant_amount: total,
        amount_dripped: dripped,
        work_in_progress_pay: dripped,
        treasury_return: total - dripped,
    }
}

/// Nothing of a grant is lost or created: what the grantee is paid and what
/// the treasury gets back add up to the grant, and for a non-negative grant
/// the grantee's part is between nothing and everything, growing with time.
pub proof fn lemma_grant_split(total: i128, duration: u64, elapsed: u64, later: u64)
    requires
        total >= 0,
        elapsed <= later,
    ensures
        dripped_of(total, duration, elapsed) + (total - dripped_of(total, duration, elapsed)) == total,
        0 <= dripped_of(total, duration, elapsed) <= total,
        dripped_of(total, duration, elapsed) <= dripped_of(total, duration, later),
        elapsed >= duration ==> dripped_of(total, duration, elapsed) == total,
        elapsed == 0 && duration > 0 ==> dripped_of(total, duration, elapsed) == 0,
{
    if elapsed < duration {
        assert(0 <= (total as int) * (elapsed as int) / (duration as int) <= total) by (nonlinear_arith)
            requires total >= 0, elapsed < duration;
        if later < duration {
            assert((total as int) * (elapsed as int) / (duration as int) <= (total as int) * (later as int) / (duration as int))
                by (nonlinear_arith)
                requires total >= 0, elapsed <= later, duration > 0;
        }
    }
}

/// Verdict recorded in a voting snapshot.
#[derive(Clone, Copy, Debug, PartialEq, Eq, Structural)]
pub enum SnapshotResult {
    Approved,
    QuorumNotMet,
}

/// The text that goes with each value.
pub open spec fn snapshot_symbol(v: SnapshotResult) -> Seq<char> {
    match v {
        SnapshotResult::Approved => "APPROVED"@,
        SnapshotResult::QuorumNotMet => "QUORUM_NOT_MET"@,
    }
}

impl SnapshotResult {
    /// The symbol under which the verdict is published.
    pub fn symbol(&self) -> (m: &'static str)
        ensures
            m@ == snapshot_symbol(*self),
    {
        match self {
            SnapshotResult::Approved => "APPROVED",
            SnapshotResult::QuorumNotMet => "QUORUM_NOT_MET",
        }
    }
}

/// Audit snapshot of a governance vote.
#[derive(Debug)]
pub struct VotingSnapshot {
    pub proposal_id: u64,
    pub total_votes: u32,
    pub for_votes: u32,
    pub against_votes: u32,
    pub abstain_votes: u32,
    pub quorum_required: u32,
    pub quorum_met: bool,
    pub result: SnapshotResult,
    pub vote_hash: Vec<u8>,
}

/// Length of a snapshot's vote hash, in bytes.
pub const VOTE_HASH_LEN: usize = 32;

/// Whether two strings are the same sequence of characters.
pub fn same_text(a: &str, b: &str) -> (r: bool)
    ensures
        r == (a@ == b@),
{
    let n = a.unicode_len();
    if n != b.unicode_len() {
        return false;
    }
    let mut i: usize = 0;
    while i < n
        invariant
            n == a@.len(),
            n == b@.len(),
            i <= n,
            forall|j: int| 0 <= j < i ==> a@[j] == b@[j],
        decreases n - i,
    {
        if a.get_char(i) != b.get_char(i) {
            return false;
        }
        i = i + 1;
    }
    assert(a@ =~= b@);
    true
}

/// Sum of the weights of the votes whose choice reads `label`.
pub open spec fn tally(votes: Seq<(Account, u32, String)>, label: Seq<char>) -> int
    decreases votes.len(),
{
    if votes.len() == 0 {
        0
    } else {
        tally(votes.drop_last(), label) + if votes.last().2@ == label { votes.last().1 as int } else { 0 }
    }
}

/// Sum of the weights of all votes.
pub open spec fn total_weight(votes: Seq<(Account, u32, String)>) -> int
    decreases votes.len(),
{
    if votes.len() == 0 {
        0
    } else {
        total_weight(votes.drop_last()) + votes.last().1 as int
    }
}

/// The three choices read differently.
pub proof fn lemma_choices_distinct()
    ensures
        "For"@ != "Against"@,
        "For"@ != "Abstain"@,
        "Against"@ != "Abstain"@,
{
    reveal_strlit("For");
    reveal_strlit("Against");
    reveal_strlit("Abstain");
    assert("For"@.len() == 3);
    assert("Against"@.len() == 7);
    assert("Abstain"@.len() == 7);
    assert("Against"@[1] != "Abstain"@[1]);
}

/// Votes for, against and abstaining together weigh no more than all votes.
pub proof fn lemma_tallies_within_total(votes: Seq<(Account, u32, String)>)
    ensures
        tally(votes, "For"@) + tally(votes, "Against"@) + tally(votes, "Abstain"@) <= total_weight(votes),
        0 <= tally(votes, "For"@),
        0 <= tally(votes, "Against"@),
        0 <= tally(votes, "Abstain"@),
    decreases votes.len(),
{
    lemma_choices_distinct();
    if votes.len() > 0 {
        lemma_tallies_within_total(votes.drop_last());
    }
}

/// When every vote reads one of the three choices, the three tallies add up
/// to the total weight.
pub proof fn lemma_tallies_cover_total(votes: Seq<(Account, u32, String)>)
    requires
        forall|i: int| 0 <= i < votes.len() ==> {
            let l = (#[trigger] votes[i]).2@;
            l == "For"@ || l == "Against"@ || l == "Abstain"@
        },
    ensures
        tally(votes, "For"@) + tally(votes, "Against"@) + tally(votes, "Abstain"@) == total_weight(votes),
    decreases votes.len(),
{
    lemma_choices_distinct();
    if votes.len() > 0 {
        let rest = votes.drop_last();
        assert forall|i: int| 0 <= i < rest.len() implies {
            let l = (#[trigger] rest[i]).2@;
            l == "For"@ || l == "Against"@ || l == "Abstain"@
        } by {
            assert(rest[i] == votes[i]);
        }
        lemma_tallies_cover_total(rest);
        assert(votes[votes.len() - 1] == votes.last());
    }
}

/// The total weight of a prefix never exceeds that of the whole.
pub proof fn lemma_prefix_weight(votes: Seq<(Account, u32, String)>, i: int)
    requires
        0 <= i <= votes.len(),
    ensures
        0 <= total_weight(votes.take(i)) <= total_weight(votes),
    decreases votes.len(),
{
    if votes.len() > 0 {
        if i == votes.len() {
            assert(votes.take(i) =~= votes);
            lemma_prefix_weight(votes.drop_last(), votes.len() - 1);
        } else {
            assert(votes.drop_last().take(i) =~= votes.take(i));
            lemma_prefix_weight(votes.drop_last(), i);
        }
    }
}

/// Takes an audit snapshot of a vote: the weight cast for, against and in
/// abstention (by the choice each vote reads: "For", "Against", "Abstain"),
/// the total, and whether it meets the quorum.
pub fn create_voting_snapshot_for_audit(
    proposal_id: u64,
    votes: &Vec<(Account, u32, String)>,
    quorum: u64,
) -> (snapshot: VotingSnapshot)
    requires
        total_weight(votes@) <= u32::MAX,
    ensures
        snapshot.proposal_id == proposal_id,
        snapshot.total_votes == total_weight(votes@),
        snapshot.for_votes == tally(votes@, "For"@),
        snapshot.against_votes == tally(votes@, "Against"@),
        snapshot.abstain_votes == tally(votes@, "Abstain"@),
        snapshot.quorum_required == quorum as u32,
        snapshot.quorum_met == (total_weight(votes@) >= quorum),
        snapshot.result == (if total_weight(votes@) >= quorum { SnapshotResult::Approved } else { SnapshotResult::QuorumNotMet }),
        snapshot.vote_hash@ == Seq::new(VOTE_HASH_LEN as nat, |i: int| 0u8),
{
    let mut total: u32 = 0;
    let mut for_votes: u32 = 0;
    let mut against_votes: u32 = 0;
    let mut abstain_votes: u32 = 0;
    let mut i: usize = 0;
    while i < votes.len()
        invariant
            i <= votes@.len(),
            total_weight(votes@) <= u32::MAX,
            total == total_weight(votes@.take(i as int)),
            for_votes == tally(votes@.take(i as int), "For"@),
            against_votes == tally(votes@.take(i as int), "Against"@),
            abstain_votes == tally(votes@.take(i as int), "Abstain"@),
        decreases votes@.len() - i,
    {
        let ghost prefix = votes@.take(i + 1);
        assert(prefix.drop_last() =~= votes@.take(i as int));
        proof {
            lemma_prefix_weight(votes@, i + 1);
            lemma_tallies_within_total(prefix);
        }
        let weight = votes[i].1;
        let label = votes[i].2.as_str();
        total = total + weight;
        if same_text(label, "For") {
            for_votes = for_votes + weight;
        } else if same_text(label, "Against") {
            against_votes = against_votes + weight;
        } else if same_text(label, "Abstain") {
            abstain_votes = abstain_votes + weight;
        }
        proof {
            lemma_choices_distinct();
        }
        i = i + 1;
    }
    assert(votes@.take(votes@.len() as int) =~= votes@);
    let quorum_met = (total as u64) >= quorum;
    let mut vote_hash: Vec<u8> = Vec::new();
    let mut k: usize = 0;
    while k < VOTE_HASH_LEN
        invariant
            k <= VOTE_HASH_LEN,
            vote_hash@ == Seq::new(k as nat, |i: int| 0u8),
        decreases VOTE_HASH_LEN - k,
    {
        vote_hash.push(0);
        k = k + 1;
        assert(vote_hash@ =~= Seq::new(k as nat, |i: int| 0u8));
    }
    VotingSnapshot {
        proposal_id,
        total_votes: total,
        for_votes,
        against_votes,
        abstain_votes,
        quorum_required: quorum as u32,
        quorum_met,
        result: if quorum_met { SnapshotResult::Approved } else { SnapshotResult::QuorumNotMet },
        vote_hash,
    }
}

} // verus!
