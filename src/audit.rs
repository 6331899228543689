//! Read-only reports on the agreement of tickets and threads, and the choice
//! of threads to archive.
use vstd::prelude::*;
use crate::reconcile::{
    contains_id, has_managed_prefix, has_prefix_in, in_forum, in_forum_spec, linked_of,
    linked_tickets, open_thread_ids, thread_ids_of, LinkedTicket, ThreadRecord, TicketState,
    TicketSummary,
};

verus! {

/// How open tickets and the threads they reference compare.
pub struct AuditReport {
    /// Distinct thread identifiers carried by open tickets.
    pub open_linked: usize,
    /// Referenced threads in the forum, active and unlocked.
    pub managed_unlocked: usize,
    /// Referenced threads in the forum, active but locked: they should be unlocked.
    pub wrong_state: Vec<u64>,
    /// Distinct referenced identifiers with no thread among the forum's active ones.
    pub missing: Vec<u64>,
}

/// Counts over a search result.
pub struct TicketCounts {
    pub total: usize,
    pub with_thread_id: usize,
    pub open_with_thread_id: usize,
}

/// The identifiers of `ids` without repeats, in order of first occurrence.
pub open spec fn distinct_of(ids: Seq<u64>) -> Seq<u64>
    decreases ids.len(),
{
    if ids.len() == 0 {
        Seq::empty()
    } else {
        let d = distinct_of(ids.drop_last());
        if d.contains(ids.last()) {
            d
        } else {
            d.push(ids.last())
        }
    }
}

/// Whether a thread of the forum has identifier `id`.
pub open spec fn forum_has(ts: Seq<ThreadRecord>, forum_id: u64, id: u64) -> bool {
    exists|k: int| 0 <= k < ts.len() && in_forum_spec(ts[k], forum_id) && (#[trigger] ts[k]).id == id
}

/// The identifiers of `d` that no thread of the forum has.
pub open spec fn missing_of(d: Seq<u64>, ts: Seq<ThreadRecord>, forum_id: u64) -> Seq<u64>
    decreases d.len(),
{
    if d.len() == 0 {
        Seq::empty()
    } else {
        let m = missing_of(d.drop_last(), ts, forum_id);
        if forum_has(ts, forum_id, d.last()) {
            m
        } else {
            m.push(d.last())
        }
    }
}

/// Whether a thread is in the forum, referenced by an open ticket, and active.
pub open spec fn managed_active(t: ThreadRecord, forum_id: u64, ids: Seq<u64>) -> bool {
    in_forum_spec(t, forum_id) && ids.contains(t.id) && !t.archived
}

pub open spec fn unlocked_count(ts: Seq<ThreadRecord>, forum_id: u64, ids: Seq<u64>) -> nat
    decreases ts.len(),
{
    if ts.len() == 0 {
        0
    } else {
        unlocked_count(ts.drop_last(), forum_id, ids) + if managed_active(
            ts.last(),
            forum_id,
            ids,
        ) && !ts.last().locked {
            1nat
        } else {
            0nat
        }
    }
}

pub open spec fn locked_ids(ts: Seq<ThreadRecord>, forum_id: u64, ids: Seq<u64>) -> Seq<u64>
    decreases ts.len(),
{
    if ts.len() == 0 {
        Seq::empty()
    } else {
        let r = locked_ids(ts.drop_last(), forum_id, ids);
        if managed_active(ts.last(), forum_id, ids) && ts.last().locked {
            r.push(ts.last().id)
        } else {
            r
        }
    }
}

pub open spec fn open_linked_count(ts: Seq<TicketSummary>) -> nat
    decreases ts.len(),
{
    if ts.len() == 0 {
        0
    } else {
        open_linked_count(ts.drop_last()) + if ts.last().state == TicketState::Open
            && crate::codec::decode_spec(ts.last().title@) is Some {
            1nat
        } else {
            0nat
        }
    }
}

/// Whether a managed thread of the forum is locked but still active, so that
/// archiving it is due.
pub open spec fn needs_archiving_spec(t: ThreadRecord, forum_id: u64, prefixes: Seq<String>) -> bool {
    in_forum_spec(t, forum_id) && has_prefix_in(prefixes, t.name@) && t.locked && !t.archived
}

/// The identifiers of `ids` without repeats, in order of first occurrence.
pub fn distinct_ids(ids: &Vec<u64>) -> (r: Vec<u64>)
    ensures
        r@ == distinct_of(ids@),
{
    let mut r: Vec<u64> = Vec::new();
    let mut i: usize = 0;
    while i < ids.len()
        invariant
            i <= ids@.len(),
            r@ == distinct_of(ids@.subrange(0, i as int)),
        decreases ids@.len() - i,
    {
        let ghost w = ids@.subrange(0, i as int + 1);
        assert(w.drop_last() =~= ids@.subrange(0, i as int));
        if !contains_id(&r, ids[i]) {
            r.push(ids[i]);
        }
        i = i + 1;
    }
    assert(ids@.subrange(0, i as int) =~= ids@);
    r
}

/// Whether a thread of the forum has identifier `id`.
fn forum_has_exec(threads: &Vec<ThreadRecord>, forum_id: u64, id: u64) -> (r: bool)
    ensures
        r == forum_has(threads@, forum_id, id),
{
    let mut i: usize = 0;
    while i < threads.len()
        invariant
            i <= threads@.len(),
            forall|k: int|
                0 <= k < i ==> !(in_forum_spec(threads@[k], forum_id) && (#[trigger] threads@[k]).id
                    == id),
        decreases threads@.len() - i,
    {
        if in_forum(&threads[i], forum_id) && threads[i].id == id {
            return true;
        }
        i = i + 1;
    }
    false
}

/// Compares open tickets with the forum's active threads.
pub fn audit_threads(open_tickets: &Vec<TicketSummary>, threads: &Vec<ThreadRecord>, forum_id: u64) -> (r:
    AuditReport)
    ensures
        ({
            let ids = thread_ids_of(linked_of(open_tickets@));
            &&& r.open_linked == distinct_of(ids).len()
            &&& r.managed_unlocked == unlocked_count(threads@, forum_id, ids)
            &&& r.wrong_state@ == locked_ids(threads@, forum_id, ids)
            &&& r.missing@ == missing_of(distinct_of(ids), threads@, forum_id)
        }),
{
    let linked: Vec<LinkedTicket> = linked_tickets(open_tickets);
    let ids = open_thread_ids(&linked);
    let distinct = distinct_ids(&ids);
    let mut unlocked: usize = 0;
    let mut wrong: Vec<u64> = Vec::new();
    let mut i: usize = 0;
    while i < threads.len()
        invariant
            i <= threads@.len(),
            unlocked == unlocked_count(threads@.subrange(0, i as int), forum_id, ids@),
            unlocked <= i,
            wrong@ == locked_ids(threads@.subrange(0, i as int), forum_id, ids@),
        decreases threads@.len() - i,
    {
        let ghost w = threads@.subrange(0, i as int + 1);
        assert(w.drop_last() =~= threads@.subrange(0, i as int));
        let t = &threads[i];
        if in_forum(t, forum_id) && contains_id(&ids, t.id) && !t.archived {
            if t.locked {
                wrong.push(t.id);
            } else {
                unlocked = unlocked + 1;
            }
        }
        i = i + 1;
    }
    assert(threads@.subrange(0, i as int) =~= threads@);
    let mut missing: Vec<u64> = Vec::new();
    let mut j: usize = 0;
    while j < distinct.len()
        invariant
            j <= distinct@.len(),
            missing@ == missing_of(distinct@.subrange(0, j as int), threads@, forum_id),
        decreases distinct@.len() - j,
    {
        let ghost w = distinct@.subrange(0, j as int + 1);
        assert(w.drop_last() =~= distinct@.subrange(0, j as int));
        if !forum_has_exec(threads, forum_id, distinct[j]) {
            missing.push(distinct[j]);
        }
        j = j + 1;
    }
    assert(distinct@.subrange(0, j as int) =~= distinct@);
    AuditReport { open_linked: distinct.len(), managed_unlocked: unlocked, wrong_state: wrong, missing }
}

/// Counts the tickets of a search result, those that carry a thread
/// identifier, and the open ones among these.
pub fn count_tickets(tickets: &Vec<TicketSummary>) -> (r: TicketCounts)
    ensures
        r.total == tickets@.len(),
        r.with_thread_id == linked_of(tickets@).len(),
        r.open_with_thread_id == open_linked_count(tickets@),
{
    let linked = linked_tickets(tickets);
    let mut open: usize = 0;
    let mut i: usize = 0;
    while i < tickets.len()
        invariant
            i <= tickets@.len(),
            open == open_linked_count(tickets@.subrange(0, i as int)),
            open <= i,
        decreases tickets@.len() - i,
    {
        let ghost w = tickets@.subrange(0, i as int + 1);
        assert(w.drop_last() =~= tickets@.subrange(0, i as int));
        if tickets[i].state == TicketState::Open && crate::codec::extract_thread_id(
            tickets[i].title.as_str(),
        ).is_some() {
            open = open + 1;
        }
        i = i + 1;
    }
    assert(tickets@.subrange(0, i as int) =~= tickets@);
    TicketCounts { total: tickets.len(), with_thread_id: linked.len(), open_with_thread_id: open }
}

/// Whether archiving a thread is due: a managed thread of the forum that is
/// locked but still active.
pub fn needs_archiving(thread: &ThreadRecord, forum_id: u64, prefixes: &Vec<String>) -> (r: bool)
    ensures
        r == needs_archiving_spec(*thread, forum_id, prefixes@),
{
    in_forum(thread, forum_id) && has_managed_prefix(thread.name.as_str(), prefixes)
        && thread.locked && !thread.archived
}

} // verus!
