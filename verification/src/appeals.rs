//! Defaults and reputation amnesty: a member marked as defaulted loses RI
//! points and may appeal; an appeal approved by two thirds of the circle
//! gives the points back and reinstates the member.
use vstd::prelude::*;

use crate::account::Account;
use crate::circle::{CircleInfo, CollateralInfo, CollateralStatus, Member, MemberStatus, pot_of, slash_collateral};
use crate::rejection::Rejection;
use crate::reputation::{
    ReliabilityIndex, apply_default_penalty, get_ri_internal, restore_after_amnesty, ri_after_amnesty,
    ri_after_default, ri_or_fresh,
};

verus! {

/// Length of an appeal vote, in seconds.
pub const APPEAL_VOTING_PERIOD: u64 = 86_400;

/// Share of the circle's other members whose approval grants an appeal, in
/// percent.
pub const REPUTATION_AMNESTY_THRESHOLD: u32 = 66;

#[derive(Clone, Copy, Debug, PartialEq, Eq, Structural)]
pub enum AppealStatus {
    Pending,
    Approved,
    Rejected,
}

/// A defaulted member's appeal against the penalty.
#[derive(Debug)]
pub struct ReputationAppeal {
    pub requester: Account,
    pub circle_id: u64,
    pub appeal_timestamp: u64,
    pub voting_deadline: u64,
    pub status: AppealStatus,
    pub for_votes: u32,
    pub against_votes: u32,
    pub reason: String,
}

/// Whether `who` is in `list`.
pub fn contains_account(list: &Vec<Account>, who: Account) -> (r: bool)
    ensures
        r == list@.contains(who),
{
    let mut i: usize = 0;
    while i < list.len()
        invariant
            i <= list@.len(),
            forall|j: int| 0 <= j < i ==> list@[j] != who,
        decreases list@.len() - i,
    {
        if list[i] == who {
            assert(list@[i as int] == who);
            return true;
        }
        i = i + 1;
    }
    false
}

/// The list without `who`, in the same order.
pub open spec fn without(list: Seq<Account>, who: Account) -> Seq<Account> {
    list.filter(|a: Account| a != who)
}

/// Removes every occurrence of `who` from the list, keeping the order.
pub fn remove_account(list: &Vec<Account>, who: Account) -> (out: Vec<Account>)
    ensures
        out@ == without(list@, who),
{
    let mut out: Vec<Account> = Vec::new();
    let mut i: usize = 0;
    while i < list.len()
        invariant
            i <= list@.len(),
            out@ == without(list@.take(i as int), who),
        decreases list@.len() - i,
    {
        proof {
            reveal(Seq::filter);
            assert(list@.take(i + 1).drop_last() =~= list@.take(i as int));
        }
        if list[i] != who {
            out.push(list[i]);
        }
        i = i + 1;
    }
    assert(list@.take(list@.len() as int) =~= list@);
    out
}

/// The list with `who` added at the end, unless it is there already.
pub open spec fn with_account(list: Seq<Account>, who: Account) -> Seq<Account> {
    if list.contains(who) { list } else { list.push(who) }
}

/// What marking a member as defaulted stores and reports.
#[derive(Debug)]
pub struct DefaultOutcome {
    /// The member's record, now defaulted.
    pub member: Member,
    /// The member's index after the penalty.
    pub ri: ReliabilityIndex,
    /// Value reported to external credit registries: the circle's pot.
    pub reported_amount: i128,
    /// The circle's defaulted members, to store when the member was added.
    pub defaulted_members: Option<Vec<Account>>,
    /// The member's collateral, slashed, when some was staked.
    pub collateral: Option<CollateralInfo>,
}

/// The first check that marking a member as defaulted fails, if any.
pub open spec fn default_refusal(creator: Account, caller: Account, admin: Option<Account>, member: Option<Member>) -> Option<Rejection> {
    match admin {
        None => Some(Rejection::NotInitialized),
        Some(a) => if caller != creator && caller != a {
            Some(Rejection::Unauthorized)
        } else {
            match member {
                None => Some(Rejection::MemberNotFound),
                Some(m) => if m.status == MemberStatus::Defaulted {
                    Some(Rejection::MemberAlreadyDefaulted)
                } else {
                    None
                },
            }
        },
    }
}

/// The circle's creator or the admin marks `who` as defaulted.
///
/// `member` is the member's stored profile, `stored_ri` their stored index,
/// `defaulted` the circle's stored list of defaulted members and
/// `collateral` the member's stored collateral for the circle. The member
/// loses `RI_PENALTY` points, is added to the list and has staked collateral
/// slashed; the caller reports `reported_amount` to external registries.
pub fn mark_member_defaulted(
    circle: &CircleInfo,
    caller: Account,
    admin: Option<Account>,
    who: Account,
    member: Option<Member>,
    stored_ri: Option<ReliabilityIndex>,
    defaulted: Option<Vec<Account>>,
    collateral: Option<CollateralInfo>,
    now: u64,
) -> (res: Result<DefaultOutcome, Rejection>)
    requires
        default_refusal(circle.creator, caller, admin, member) is None ==> {
            &&& ri_or_fresh(stored_ri, now).default_count < u8::MAX
            &&& i128::MIN <= pot_of(circle@) <= i128::MAX
        },
    ensures
        match default_refusal(circle.creator, caller, admin, member) {
            Some(e) => res matches Err(r) && r == e,
            None => res matches Ok(o) && {
                let list = match defaulted { Some(l) => l@, None => Seq::<Account>::empty() };
                &&& o.member == (Member { status: MemberStatus::Defaulted, ..member.unwrap() })
                &&& o.ri == ri_after_default(ri_or_fresh(stored_ri, now), now)
                &&& o.reported_amount == pot_of(circle@)
                &&& (match o.defaulted_members {
                    None => list.contains(who),
                    Some(l) => !list.contains(who) && l@ == with_account(list, who),
                })
                &&& o.collateral == match collateral {
                    Some(k) => Some((CollateralInfo { status: CollateralStatus::Slashed, ..k })),
                    None => None,
                }
            },
        },
{
    let admin = match admin {
        Some(a) => a,
        None => { return Err(Rejection::NotInitialized); },
    };
    if caller != circle.creator && caller != admin {
        return Err(Rejection::Unauthorized);
    }
    let mut m = match member {
        Some(m) => m,
        None => { return Err(Rejection::MemberNotFound); },
    };
    if m.status == MemberStatus::Defaulted {
        return Err(Rejection::MemberAlreadyDefaulted);
    }
    m.status = MemberStatus::Defaulted;
    let ri = apply_default_penalty(get_ri_internal(stored_ri, now), now);
    let reported_amount = circle.contribution_amount * (circle.member_count as i128);
    let mut list = match defaulted {
        Some(l) => l,
        None => Vec::new(),
    };
    let defaulted_members = if contains_account(&list, who) {
        None
    } else {
        list.push(who);
        Some(list)
    };
    let collateral = match collateral {
        Some(k) => Some(slash_collateral(k)),
        None => None,
    };
    Ok(DefaultOutcome { member: m, ri, reported_amount, defaulted_members, collateral })
}

/// What an appeal yields: the appeal to store, or why it is refused.
pub open spec fn appeal_outcome(
    requester: Account,
    circle_id: u64,
    reason: String,
    member: Option<Member>,
    appeal_exists: bool,
    now: u64,
) -> Result<ReputationAppeal, Rejection> {
    match member {
        None => Err(Rejection::MemberNotFound),
        Some(m) => if m.status != MemberStatus::Defaulted {
            Err(Rejection::OnlyDefaultedMayAppeal)
        } else if appeal_exists {
            Err(Rejection::AppealAlreadyExists)
        } else {
            Ok(ReputationAppeal {
                requester,
                circle_id,
                appeal_timestamp: now,
                voting_deadline: (now + APPEAL_VOTING_PERIOD) as u64,
                status: AppealStatus::Pending,
                for_votes: 0,
                against_votes: 0,
                reason,
            })
        },
    }
}

/// A defaulted member appeals against the penalty.
///
/// `member` is the member's stored profile; `appeal_exists` tells whether an
/// appeal of the member is stored for the circle. On success the result is
/// the appeal to store, open for one voting period from `now`.
pub fn appeal_penalty(
    requester: Account,
    circle_id: u64,
    reason: String,
    member: Option<Member>,
    appeal_exists: bool,
    now: u64,
) -> (res: Result<ReputationAppeal, Rejection>)
    requires
        now + APPEAL_VOTING_PERIOD <= u64::MAX,
    ensures
        res == appeal_outcome(requester, circle_id, reason, member, appeal_exists, now),
{
    let m = match member {
        Some(m) => m,
        None => { return Err(Rejection::MemberNotFound); },
    };
    if m.status != MemberStatus::Defaulted {
        return Err(Rejection::OnlyDefaultedMayAppeal);
    }
    if appeal_exists {
        return Err(Rejection::AppealAlreadyExists);
    }
    Ok(ReputationAppeal {
        requester,
        circle_id,
        appeal_timestamp: now,
        voting_deadline: now + APPEAL_VOTING_PERIOD,
        status: AppealStatus::Pending,
        for_votes: 0,
        against_votes: 0,
        reason,
    })
}

/// What an amnesty stores.
#[derive(Debug)]
pub struct AmnestyOutcome {
    /// The requester's index, with the points given back.
    pub ri: ReliabilityIndex,
    /// The requester's profile, active again.
    pub member: Member,
    /// The circle's defaulted members without the requester, when a list is stored.
    pub defaulted_members: Option<Vec<Account>>,
}

/// Whether an amnesty would be refused, and why.
pub open spec fn amnesty_refusal(appeal_status: Option<AppealStatus>, member: Option<Member>) -> Option<Rejection> {
    match appeal_status {
        None => Some(Rejection::AppealNotFound),
        Some(st) => if st != AppealStatus::Approved {
            Some(Rejection::AppealNotApproved)
        } else if member is None {
            Some(Rejection::MemberNotFound)
        } else {
            None
        },
    }
}

/// What an amnesty stores, spelled out.
pub open spec fn amnesty_matches(
    o: AmnestyOutcome,
    requester: Account,
    stored_ri: Option<ReliabilityIndex>,
    member: Option<Member>,
    defaulted: Option<Vec<Account>>,
    now: u64,
) -> bool {
    &&& o.ri == ri_after_amnesty(ri_or_fresh(stored_ri, now))
    &&& o.member == (Member { status: MemberStatus::Active, ..member.unwrap() })
    &&& match defaulted {
        None => o.defaulted_members is None,
        Some(l) => o.defaulted_members matches Some(k) && k@ == without(l@, requester),
    }
}

/// Grants amnesty to a member whose appeal was approved.
///
/// `appeal_status` is the status of the stored appeal (`None`: none stored),
/// `member` the requester's stored profile, `stored_ri` their stored index
/// and `defaulted` the circle's stored list of defaulted members. The member
/// gets `RI_RESTORE` points back (capped), is active again and leaves the
/// list.
pub fn reputation_amnesty(
    appeal_status: Option<AppealStatus>,
    requester: Account,
    stored_ri: Option<ReliabilityIndex>,
    member: Option<Member>,
    defaulted: Option<Vec<Account>>,
    now: u64,
) -> (res: Result<AmnestyOutcome, Rejection>)
    ensures
        match amnesty_refusal(appeal_status, member) {
            Some(e) => res matches Err(r) && r == e,
            None => res matches Ok(o) && amnesty_matches(o, requester, stored_ri, member, defaulted, now),
        },
{
    match appeal_status {
        None => { return Err(Rejection::AppealNotFound); },
        Some(st) => {
            if st != AppealStatus::Approved {
                return Err(Rejection::AppealNotApproved);
            }
        },
    }
    let ri = restore_after_amnesty(get_ri_internal(stored_ri, now));
    let mut m = match member {
        Some(m) => m,
        None => { return Err(Rejection::MemberNotFound); },
    };
    m.status = MemberStatus::Active;
    let defaulted_members = match defaulted {
        Some(l) => Some(remove_account(&l, requester)),
        None => None,
    };
    Ok(AmnestyOutcome { ri, member: m, defaulted_members })
}

/// What a vote on an appeal stores.
#[derive(Debug)]
pub struct AppealVote {
    /// The appeal with the vote counted.
    pub appeal: ReputationAppeal,
    /// The amnesty granted when the vote carried the appeal.
    pub amnesty: Option<AmnestyOutcome>,
}

/// The first check that a vote on an appeal fails before it is counted.
pub open spec fn appeal_vote_precheck(
    appeal: Option<ReputationAppeal>,
    already_voted: bool,
    voter_is_member: bool,
    now: u64,
) -> Option<Rejection> {
    match appeal {
        None => Some(Rejection::AppealNotFound),
        Some(a) => if a.status != AppealStatus::Pending {
            Some(Rejection::AppealAlreadyFinalized)
        } else if now > a.voting_deadline {
            Some(Rejection::VotingPeriodExpired)
        } else if already_voted {
            Some(Rejection::AlreadyVoted)
        } else if !voter_is_member {
            Some(Rejection::VoterNotFound)
        } else {
            None
        },
    }
}

/// The first check that a vote on an appeal fails, if any, before the
/// outcome is decided.
pub open spec fn appeal_vote_refusal(
    appeal: Option<ReputationAppeal>,
    already_voted: bool,
    voter_is_member: bool,
    member_count: Option<u32>,
    now: u64,
) -> Option<Rejection> {
    match appeal_vote_precheck(appeal, already_voted, voter_is_member, now) {
        Some(e) => Some(e),
        None => if member_count is None { Some(Rejection::CircleNotFound) } else { None },
    }
}

/// Approvals needed among `voters` voters: two thirds, rounded down.
pub open spec fn required_votes(voters: int) -> int {
    voters * (REPUTATION_AMNESTY_THRESHOLD as int) / 100
}

/// The appeal with one more vote counted and its status decided.
pub open spec fn appeal_after_vote(a: ReputationAppeal, approve: bool, member_count: u32) -> ReputationAppeal {
    let for_votes = if approve { (a.for_votes + 1) as u32 } else { a.for_votes };
    let against_votes = if approve { a.against_votes } else { (a.against_votes + 1) as u32 };
    let voters = member_count - 1;
    let required = required_votes(voters);
    ReputationAppeal {
        for_votes,
        against_votes,
        status: if for_votes >= required {
            AppealStatus::Approved
        } else if against_votes > voters - required {
            AppealStatus::Rejected
        } else {
            a.status
        },
        ..a
    }
}

/// A member of the circle votes on an appeal.
///
/// `already_voted` tells whether this voter's vote on the appeal is stored,
/// `voter_is_member` whether the voter has a member profile, and
/// `member_count` is the circle's member count (`None`: no circle stored).
/// The appeal is approved once two thirds of the other members approve it,
/// which grants the amnesty at once (from `requester_member`, `stored_ri`
/// and `defaulted`, as [`reputation_amnesty`] takes them), and rejected once
/// approval can no longer be reached.
pub fn vote_on_appeal(
    appeal: Option<ReputationAppeal>,
    requester: Account,
    already_voted: bool,
    voter_is_member: bool,
    member_count: Option<u32>,
    approve: bool,
    requester_member: Option<Member>,
    stored_ri: Option<ReliabilityIndex>,
    defaulted: Option<Vec<Account>>,
    now: u64,
) -> (res: Result<AppealVote, Rejection>)
    requires
        appeal_vote_precheck(appeal, already_voted, voter_is_member, now) is None ==> {
            let a = appeal.unwrap();
            &&& approve ==> a.for_votes < u32::MAX
            &&& !approve ==> a.against_votes < u32::MAX
        },
        appeal_vote_refusal(appeal, already_voted, voter_is_member, member_count, now) is None ==> {
            let n = member_count.unwrap();
            &&& n >= 1
            &&& (n - 1) * REPUTATION_AMNESTY_THRESHOLD <= u32::MAX
        },
    ensures
        match appeal_vote_refusal(appeal, already_voted, voter_is_member, member_count, now) {
            Some(e) => res matches Err(r) && r == e,
            None => {
                let after = appeal_after_vote(appeal.unwrap(), approve, member_count.unwrap());
                if after.status == AppealStatus::Approved {
                    match amnesty_refusal(Some(AppealStatus::Approved), requester_member) {
                        Some(e) => res matches Err(r) && r == e,
                        None => res matches Ok(v) && v.appeal == after && (match v.amnesty {
                            Some(o) => amnesty_matches(o, requester, stored_ri, requester_member, defaulted, now),
                            None => false,
                        }),
                    }
                } else {
                    res matches Ok(v) && v.appeal == after && v.amnesty is None
                }
            },
        },
        res matches Ok(v) ==> (member_count matches Some(n) && appeal matches Some(a) && {
            let voters = n - 1;
            let needed = voters * 66 / 100;
            &&& v.appeal.for_votes == a.for_votes + (if approve { 1int } else { 0 })
            &&& v.appeal.against_votes == a.against_votes + (if approve { 0int } else { 1 })
            &&& (v.appeal.status == AppealStatus::Approved) <==> v.appeal.for_votes >= needed
            &&& (v.appeal.status == AppealStatus::Rejected) <==> (v.appeal.for_votes < needed && v.appeal.against_votes > voters - needed)
            &&& v.appeal.status == AppealStatus::Pending <==> (v.appeal.for_votes < needed && v.appeal.against_votes <= voters - needed)
        }),
{
    let mut a = match appeal {
        Some(a) => a,
        None => { return Err(Rejection::AppealNotFound); },
    };
    if a.status != AppealStatus::Pending {
        return Err(Rejection::AppealAlreadyFinalized);
    }
    if now > a.voting_deadline {
        return Err(Rejection::VotingPeriodExpired);
    }
    if already_voted {
        return Err(Rejection::AlreadyVoted);
    }
    if !voter_is_member {
        return Err(Rejection::VoterNotFound);
    }
    if approve {
        a.for_votes = a.for_votes + 1;
    } else {
        a.against_votes = a.against_votes + 1;
    }
    let n = match member_count {
        Some(n) => n,
        None => { return Err(Rejection::CircleNotFound); },
    };
    let total_voters = n - 1;
    let required_votes = (total_voters * REPUTATION_AMNESTY_THRESHOLD) / 100;
    if a.for_votes >= required_votes {
        a.status = AppealStatus::Approved;
        let amnesty = reputation_amnesty(Some(AppealStatus::Approved), requester, stored_ri, requester_member, defaulted, now)?;
        Ok(AppealVote { appeal: a, amnesty: Some(amnesty) })
    } else {
        if a.against_votes > total_voters - required_votes {
            a.status = AppealStatus::Rejected;
        }
        Ok(AppealVote { appeal: a, amnesty: None })
    }
}

/// A vote decides an appeal only when the count settles it: approval needs
/// two thirds (rounded down) of the other members, and rejection comes only
/// once so many voted against that approval can no longer be reached; until
/// then the appeal stays pending. Each vote counts once, on its own side.
pub proof fn lemma_appeal_decided_by_count(a: ReputationAppeal, approve: bool, member_count: u32)
    requires
        a.status == AppealStatus::Pending,
        member_count >= 1,
        approve ==> a.for_votes < u32::MAX,
        !approve ==> a.against_votes < u32::MAX,
    ensures
        ({
            let after = appeal_after_vote(a, approve, member_count);
            let voters = member_count - 1;
            let needed = voters * 66 / 100;
            &&& after.for_votes == a.for_votes + (if approve { 1int } else { 0 })
            &&& after.against_votes == a.against_votes + (if approve { 0int } else { 1 })
            &&& after.status == AppealStatus::Approved <==> after.for_votes >= needed
            &&& after.status == AppealStatus::Rejected <==> (after.for_votes < needed && after.against_votes > voters - needed)
            &&& after.status == AppealStatus::Pending <==> (after.for_votes < needed && after.against_votes <= voters - needed)
        }),
{
}

/// A decided appeal takes no more votes.
pub proof fn lemma_decided_appeal_closed(
    appeal: ReputationAppeal,
    already_voted: bool,
    voter_is_member: bool,
    member_count: Option<u32>,
    now: u64,
)
    requires
        appeal.status != AppealStatus::Pending,
    ensures
        appeal_vote_refusal(Some(appeal), already_voted, voter_is_member, member_count, now)
            == Some(Rejection::AppealAlreadyFinalized),
{
}

/// An appeal is never both carried and rejected: the approvals needed never
/// exceed the voters, so a vote that rejects leaves approval out of reach.
pub proof fn lemma_required_within_voters(voters: int)
    requires
        voters >= 0,
    ensures
        0 <= required_votes(voters) <= voters,
{
    assert(voters * 66 / 100 <= voters) by (nonlinear_arith)
        requires voters >= 0;
    assert(voters * 66 >= 0) by (nonlinear_arith)
        requires voters >= 0;
}

/// Removing an account that is not in a list leaves the list as it is.
pub proof fn lemma_without_absent(list: Seq<Account>, who: Account)
    requires
        !list.contains(who),
    ensures
        without(list, who) == list,
    decreases list.len(),
{
    reveal(Seq::filter);
    if list.len() > 0 {
        assert(!list.drop_last().contains(who)) by {
            if list.drop_last().contains(who) {
                let j = choose|j: int| 0 <= j < list.drop_last().len() && list.drop_last()[j] == who;
                assert(list[j] == who);
            }
        }
        lemma_without_absent(list.drop_last(), who);
        assert(list.last() != who) by {
            assert(list[list.len() - 1] == list.last());
        }
        assert(list.drop_last().push(list.last()) =~= list);
    }
}

/// An amnesty undoes the listing of a default: once a member who was not on
/// the circle's list of defaulted members is listed and then granted
/// amnesty, the list is what it was.
pub proof fn lemma_amnesty_unlists(list: Seq<Account>, who: Account)
    requires
        !list.contains(who),
    ensures
        without(with_account(list, who), who) == list,
{
    reveal(Seq::filter);
    let pushed = list.push(who);
    assert(pushed.drop_last() =~= list);
    lemma_without_absent(list, who);
}

} // verus!
