//! Social vouching: a high-reputation member locks capital to guarantee a new
//! member; if the new member defaults, part of that capital is slashed.
use vstd::prelude::*;

use crate::account::Account;

verus! {

/// Minimum Reliability Index score required to vouch for another member.
pub const MIN_VOUCHER_RI_SCORE: u32 = 700;

/// Maximum number of active vouches a single member can hold at once.
pub const MAX_ACTIVE_VOUCHES: u32 = 3;

/// Share of the locked amount that is slashed on default, in basis points.
pub const VOUCHER_PENALTY_BPS: u32 = 2000;

/// How long a vouch stays active before it expires, in ledger seconds.
pub const VOUCH_EXPIRY_SECONDS: u64 = 2_592_000;

#[derive(Clone, Copy, Debug, PartialEq, Eq, Structural)]
pub enum VouchStatus {
    Active,
    Redeemed,
    Slashed,
    Expired,
}

/// A record of one member vouching for another within a circle.
#[derive(Clone, Copy, Debug, PartialEq, Eq, Structural)]
pub struct VouchRecord {
    pub voucher: Account,
    pub vouched: Account,
    pub circle_id: u64,
    pub locked_amount: i128,
    pub created_at: u64,
    pub expires_at: u64,
    pub status: VouchStatus,
    pub slash_amount: i128,
}

/// Summary of a member's vouching activity.
#[derive(Clone, Copy, Debug, PartialEq, Eq, Structural)]
pub struct VoucherProfile {
    pub address: Account,
    pub active_vouches: u32,
    pub total_vouches_given: u32,
    pub total_slashes_received: u32,
    pub total_slashed_amount: i128,
}

/// Why a vouching request or a slash is turned down.
#[derive(Clone, Copy, Debug, PartialEq, Eq, Structural)]
pub enum VouchRefusal {
    RiScoreTooLow,
    AmountNotPositive,
    SelfVouch,
    TooManyActiveVouches,
    RecordNotFound,
    NotActive,
}

/// The text that goes with each value.
pub open spec fn vouch_refusal_message(v: VouchRefusal) -> Seq<char> {
    match v {
        VouchRefusal::RiScoreTooLow => "RI score too low to vouch"@,
        VouchRefusal::AmountNotPositive => "Locked amount must be positive"@,
        VouchRefusal::SelfVouch => "Cannot vouch for yourself"@,
        VouchRefusal::TooManyActiveVouches => "Max active vouches reached"@,
        VouchRefusal::RecordNotFound => "Vouch record not found"@,
        VouchRefusal::NotActive => "Vouch is not active"@,
    }
}

impl VouchRefusal {
    /// The message with which the contract aborts for this refusal.
    pub fn message(&self) -> (m: &'static str)
        ensures
            m@ == vouch_refusal_message(*self),
    {
        match self {
            VouchRefusal::RiScoreTooLow => "RI score too low to vouch",
            VouchRefusal::AmountNotPositive => "Locked amount must be positive",
            VouchRefusal::SelfVouch => "Cannot vouch for yourself",
            VouchRefusal::TooManyActiveVouches => "Max active vouches reached",
            VouchRefusal::RecordNotFound => "Vouch record not found",
            VouchRefusal::NotActive => "Vouch is not active",
        }
    }
}

/// The first rule, in the order they are checked, that a vouch breaks.
pub open spec fn vouch_refusal(
    voucher: Account,
    vouched: Account,
    locked_amount: i128,
    voucher_ri_score: u32,
    active_count: u32,
) -> Option<VouchRefusal> {
    if voucher_ri_score < MIN_VOUCHER_RI_SCORE {
        Some(VouchRefusal::RiScoreTooLow)
    } else if locked_amount <= 0 {
        Some(VouchRefusal::AmountNotPositive)
    } else if voucher == vouched {
        Some(VouchRefusal::SelfVouch)
    } else if active_count >= MAX_ACTIVE_VOUCHES {
        Some(VouchRefusal::TooManyActiveVouches)
    } else {
        None
    }
}

/// The amount slashed from a vouch that locked `locked_amount`.
/// (Division rounds toward zero, as integer division on the ledger does.)
pub open spec fn slash_of(locked_amount: i128) -> int {
    let scaled = (locked_amount as int) * (VOUCHER_PENALTY_BPS as int);
    if scaled >= 0 { scaled / 10_000 } else { -((-scaled) / 10_000) }
}

/// What a vouch request yields: the record to store and the voucher's new
/// active count, or the first rule it breaks.
pub open spec fn vouch_outcome(
    voucher: Account,
    vouched: Account,
    circle_id: u64,
    locked_amount: i128,
    voucher_ri_score: u32,
    active_count: u32,
    now: u64,
) -> Result<(VouchRecord, u32), VouchRefusal> {
    match vouch_refusal(voucher, vouched, locked_amount, voucher_ri_score, active_count) {
        Some(e) => Err(e),
        None => Ok((
            VouchRecord {
                voucher,
                vouched,
                circle_id,
                locked_amount,
                created_at: now,
                expires_at: (now + VOUCH_EXPIRY_SECONDS) as u64,
                status: VouchStatus::Active,
                slash_amount: 0,
            },
            (active_count + 1) as u32,
        )),
    }
}

/// What slashing yields: the record to store and the active count to store
/// (`None`: left as it is), or why it is refused.
pub open spec fn slash_outcome(
    record: Option<VouchRecord>,
    stored_count: Option<u32>,
) -> Result<(VouchRecord, Option<u32>), VouchRefusal> {
    match record {
        None => Err(VouchRefusal::RecordNotFound),
        Some(r) => if r.status != VouchStatus::Active {
            Err(VouchRefusal::NotActive)
        } else {
            Ok((
                VouchRecord { slash_amount: slash_of(r.locked_amount) as i128, status: VouchStatus::Slashed, ..r },
                if stored_count.unwrap_or(1) > 0 { Some((stored_count.unwrap_or(1) - 1) as u32) } else { None },
            ))
        },
    }
}

/// A high-RI member vouches for `vouched` by locking `locked_amount`.
///
/// `active_count` is the voucher's stored number of active vouches (0 when
/// none is stored). On success the result holds the record to store under
/// the pair (voucher, vouched) and the voucher's new active count; the
/// caller also records `voucher` as the one who vouched for `vouched`.
pub fn vouch_for_user(
    voucher: Account,
    vouched: Account,
    circle_id: u64,
    locked_amount: i128,
    voucher_ri_score: u32,
    active_count: u32,
    now: u64,
) -> (res: Result<(VouchRecord, u32), VouchRefusal>)
    requires
        now + VOUCH_EXPIRY_SECONDS <= u64::MAX,
    ensures
        res == vouch_outcome(voucher, vouched, circle_id, locked_amount, voucher_ri_score, active_count, now),
{
    if voucher_ri_score < MIN_VOUCHER_RI_SCORE {
        return Err(VouchRefusal::RiScoreTooLow);
    }
    if locked_amount <= 0 {
        return Err(VouchRefusal::AmountNotPositive);
    }
    if voucher == vouched {
        return Err(VouchRefusal::SelfVouch);
    }
    if active_count >= MAX_ACTIVE_VOUCHES {
        return Err(VouchRefusal::TooManyActiveVouches);
    }
    let record = VouchRecord {
        voucher,
        vouched,
        circle_id,
        locked_amount,
        created_at: now,
        expires_at: now + VOUCH_EXPIRY_SECONDS,
        status: VouchStatus::Active,
        slash_amount: 0,
    };
    Ok((record, active_count + 1))
}

/// Slashes the vouch stored for a pair when the vouched member defaults.
///
/// `record` is the stored vouch (if any) and `stored_count` the voucher's
/// stored active count. On success the result holds the record to store and
/// the active count to store, `None` when the count is left as it is.
pub fn slash_voucher(
    record: Option<VouchRecord>,
    stored_count: Option<u32>,
) -> (res: Result<(VouchRecord, Option<u32>), VouchRefusal>)
    requires
        record matches Some(r) ==> (r.status == VouchStatus::Active
            ==> i128::MIN <= (r.locked_amount as int) * (VOUCHER_PENALTY_BPS as int) <= i128::MAX),
    ensures
        res == slash_outcome(record, stored_count),
{
    let mut r = match record {
        Some(r) => r,
        None => { return Err(VouchRefusal::RecordNotFound); },
    };
    if r.status != VouchStatus::Active {
        return Err(VouchRefusal::NotActive);
    }
    let slash = (r.locked_amount * (VOUCHER_PENALTY_BPS as i128)) / 10_000;
    r.slash_amount = slash;
    r.status = VouchStatus::Slashed;
    let count: u32 = match stored_count {
        Some(c) => c,
        None => 1,
    };
    let new_count = if count > 0 { Some(count - 1) } else { None };
    Ok((r, new_count))
}

/// A voucher never holds more than `MAX_ACTIVE_VOUCHES` active vouches: a
/// granted vouch starting from an allowed count ends at an allowed count, and
/// a slash never raises the count.
pub proof fn lemma_active_vouches_capped(
    voucher: Account,
    vouched: Account,
    circle_id: u64,
    locked_amount: i128,
    voucher_ri_score: u32,
    active_count: u32,
    now: u64,
    record: Option<VouchRecord>,
)
    requires
        active_count <= MAX_ACTIVE_VOUCHES,
    ensures
        vouch_outcome(voucher, vouched, circle_id, locked_amount, voucher_ri_score, active_count, now)
            matches Ok((_, n)) ==> n <= MAX_ACTIVE_VOUCHES,
        slash_outcome(record, Some(active_count)) matches Ok((_, Some(n))) ==> n < active_count,
{
}

/// Slashing an active vouch with a positive locked amount takes a share of
/// it, never more than what was locked, and leaves the locked amount as is.
pub proof fn lemma_slash_within_locked(record: VouchRecord, stored_count: Option<u32>)
    requires
        record.status == VouchStatus::Active,
        record.locked_amount > 0,
        (record.locked_amount as int) * (VOUCHER_PENALTY_BPS as int) <= i128::MAX,
    ensures
        slash_outcome(Some(record), stored_count) matches Ok((r, _)) && 0 <= r.slash_amount <= record.locked_amount
            && r.locked_amount == record.locked_amount,
{
}

/// A vouch is slashed once: slashing what a slash stored is refused.
pub proof fn lemma_slash_once(record: VouchRecord, stored_count: Option<u32>, later_count: Option<u32>)
    requires
        record.status == VouchStatus::Active,
    ensures
        slash_outcome(Some(record), stored_count) matches Ok((r, _))
            && slash_outcome(Some(r), later_count) == Err::<(VouchRecord, Option<u32>), VouchRefusal>(VouchRefusal::NotActive),
{
}

} // verus!
