//! The audit trail: queries over recorded actions.
use vstd::prelude::*;

use crate::account::Account;

verus! {

#[derive(Clone, Copy, Debug, PartialEq, Eq, Structural)]
pub enum AuditAction {
    AdminAction,
}

/// One recorded action.
#[derive(Clone, Copy, Debug, PartialEq, Eq, Structural)]
pub struct AuditEntry {
    pub id: u64,
    pub actor: Account,
    pub action: AuditAction,
    pub resource_id: u64,
    pub timestamp: u64,
}

/// Whether an entry falls in the time window `start..=end`.
pub open spec fn in_window(e: AuditEntry, start: u64, end: u64) -> bool {
    start <= e.timestamp <= end
}

/// Entries of `actor` in the window.
pub open spec fn by_actor(actor: Account, start: u64, end: u64) -> spec_fn(AuditEntry) -> bool {
    |e: AuditEntry| e.actor == actor && in_window(e, start, end)
}

/// Entries about `resource_id` in the window.
pub open spec fn by_resource(resource_id: u64, start: u64, end: u64) -> spec_fn(AuditEntry) -> bool {
    |e: AuditEntry| e.resource_id == resource_id && in_window(e, start, end)
}

/// Entries in the window.
pub open spec fn by_time(start: u64, end: u64) -> spec_fn(AuditEntry) -> bool {
    |e: AuditEntry| in_window(e, start, end)
}

/// The entries, in order, that satisfy `keep`.
pub open spec fn select(entries: Seq<AuditEntry>, keep: spec_fn(AuditEntry) -> bool) -> Seq<AuditEntry> {
    entries.filter(keep)
}

/// Entries of `actor` in the time window `start..=end`, in recorded order.
pub fn query_audit_by_actor(entries: &Vec<AuditEntry>, actor: Account, start: u64, end: u64) -> (out: Vec<AuditEntry>)
    ensures
        out@ == select(entries@, by_actor(actor, start, end)),
{
    let mut out: Vec<AuditEntry> = Vec::new();
    let mut i: usize = 0;
    while i < entries.len()
        invariant
            i <= entries@.len(),
            out@ == entries@.take(i as int).filter(by_actor(actor, start, end)),
        decreases entries@.len() - i,
    {
        proof {
            reveal(Seq::filter);
            assert(entries@.take(i + 1).drop_last() =~= entries@.take(i as int));
        }
        let e = entries[i];
        assert(entries@.take(i + 1).last() == e);
        if e.actor == actor && e.timestamp >= start && e.timestamp <= end {
            out.push(e);
        }
        i = i + 1;
    }
    assert(entries@.take(entries@.len() as int) =~= entries@);
    out
}

/// Entries about resource `resource_id` in the time window `start..=end`,
/// in recorded order.
pub fn query_audit_by_resource(entries: &Vec<AuditEntry>, resource_id: u64, start: u64, end: u64) -> (out: Vec<AuditEntry>)
    ensures
        out@ == select(entries@, by_resource(resource_id, start, end)),
{
    let mut out: Vec<AuditEntry> = Vec::new();
    let mut i: usize = 0;
    while i < entries.len()
        invariant
            i <= entries@.len(),
            out@ == entries@.take(i as int).filter(by_resource(resource_id, start, end)),
        decreases entries@.len() - i,
    {
        proof {
            reveal(Seq::filter);
            assert(entries@.take(i + 1).drop_last() =~= entries@.take(i as int));
        }
        let e = entries[i];
        assert(entries@.take(i + 1).last() == e);
        if e.resource_id == resource_id && e.timestamp >= start && e.timestamp <= end {
            out.push(e);
        }
        i = i + 1;
    }
    assert(entries@.take(entries@.len() as int) =~= entries@);
    out
}

/// Entries in the time window `start..=end`, in recorded order.
pub fn query_audit_by_time(entries: &Vec<AuditEntry>, start: u64, end: u64) -> (out: Vec<AuditEntry>)
    ensures
        out@ == select(entries@, by_time(start, end)),
{
    let mut out: Vec<AuditEntry> = Vec::new();
    let mut i: usize = 0;
    while i < entries.len()
        invariant
            i <= entries@.len(),
            out@ == entries@.take(i as int).filter(by_time(start, end)),
        decreases entries@.len() - i,
    {
        proof {
            reveal(Seq::filter);
            assert(entries@.take(i + 1).drop_last() =~= entries@.take(i as int));
        }
        let e = entries[i];
        assert(entries@.take(i + 1).last() == e);
        if e.timestamp >= start && e.timestamp <= end {
            out.push(e);
        }
        i = i + 1;
    }
    assert(entries@.take(entries@.len() as int) =~= entries@);
    out
}

/// Narrowing a query to one actor or one resource never brings up an entry
/// that the plain time-window query over the same window leaves out.
pub proof fn lemma_narrow_queries_within_window(
    entries: Seq<AuditEntry>,
    actor: Account,
    resource_id: u64,
    start: u64,
    end: u64,
    e: AuditEntry,
)
    ensures
        select(entries, by_actor(actor, start, end)).contains(e) ==> select(entries, by_time(start, end)).contains(e),
        select(entries, by_resource(resource_id, start, end)).contains(e) ==> select(entries, by_time(start, end)).contains(e),
{
    if select(entries, by_actor(actor, start, end)).contains(e) {
        let f = entries.filter(by_actor(actor, start, end));
        let j = choose|j: int| 0 <= j < f.len() && f[j] == e;
        entries.lemma_filter_pred(by_actor(actor, start, end), j);
        entries.lemma_filter_contains_rev(by_actor(actor, start, end), e);
        let i = choose|i: int| 0 <= i < entries.len() && entries[i] == e;
        entries.lemma_filter_contains(by_time(start, end), i);
    }
    if select(entries, by_resource(resource_id, start, end)).contains(e) {
        let f = entries.filter(by_resource(resource_id, start, end));
        let j = choose|j: int| 0 <= j < f.len() && f[j] == e;
        entries.lemma_filter_pred(by_resource(resource_id, start, end), j);
        entries.lemma_filter_contains_rev(by_resource(resource_id, start, end), e);
        let i = choose|i: int| 0 <= i < entries.len() && entries[i] == e;
        entries.lemma_filter_contains(by_time(start, end), i);
    }
}

} // verus!
