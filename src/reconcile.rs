//! The reconciliation of ticket lifecycle states with thread lock/archive flags.
//!
//! Each cycle a thread is in one of three states, derived afresh:
//! linked to exactly one open ticket, linked (by discovery) to a ticket that is
//! now closed, or neither. Only the first two lead to a corrective action, and
//! each action is a notification followed by one edit of the thread's flags.
use vstd::prelude::*;
use crate::codec::{decode_spec, extract_thread_id};
use crate::constants::{MSG_ISSUE_CLOSED, MSG_ISSUE_REOPENED};
use crate::text::starts_with;

verus! {

/// Lifecycle state of a tracker ticket.
#[derive(Clone, Copy, Debug, PartialEq, Eq, Structural)]
pub enum TicketState {
    Open,
    Closed,
}

/// A ticket as the tracker's search lists it.
#[derive(Clone, Debug)]
pub struct TicketSummary {
    pub number: u64,
    pub title: String,
    pub state: TicketState,
}

/// A ticket whose title carries a thread identifier.
#[derive(Clone, Copy, Debug, PartialEq, Eq, Structural)]
pub struct LinkedTicket {
    pub number: u64,
    pub thread_id: u64,
}

/// A chat thread as the reconciler reads it.
#[derive(Clone, Debug)]
pub struct ThreadRecord {
    pub id: u64,
    pub parent_id: Option<u64>,
    pub name: String,
    pub locked: bool,
    pub archived: bool,
}

/// The corrective action decided for one thread in one cycle.
#[derive(Clone, Copy, Debug, PartialEq, Eq, Structural)]
pub enum Correction {
    Nothing,
    Reopen,
    Close,
}

/// The fixed notifications posted into a thread.
#[derive(Clone, Copy, Debug, PartialEq, Eq, Structural)]
pub enum Notice {
    Reopened,
    Closed,
}

impl Notice {
    /// The message posted for this notice.
    pub fn text(&self) -> (r: &'static str)
        ensures
            r@ == (match self {
                Notice::Reopened => MSG_ISSUE_REOPENED@,
                Notice::Closed => MSG_ISSUE_CLOSED@,
            }),
    {
        match self {
            Notice::Reopened => MSG_ISSUE_REOPENED,
            Notice::Closed => MSG_ISSUE_CLOSED,
        }
    }
}

/// One call into the chat platform, made in the order given.
#[derive(Clone, Copy, Debug, PartialEq, Eq, Structural)]
pub enum ThreadCall {
    Notify { thread: u64, notice: Notice },
    Edit { thread: u64, locked: bool, archived: bool },
}

/// The tickets of a search result that carry a thread identifier, in order.
pub open spec fn linked_of(ts: Seq<TicketSummary>) -> Seq<LinkedTicket>
    decreases ts.len(),
{
    if ts.len() == 0 {
        Seq::empty()
    } else {
        let rest = linked_of(ts.drop_last());
        match decode_spec(ts.last().title@) {
            Some(id) => rest.push(LinkedTicket { number: ts.last().number, thread_id: id }),
            None => rest,
        }
    }
}

/// The thread identifiers of linked tickets, in order.
pub open spec fn thread_ids_of(ls: Seq<LinkedTicket>) -> Seq<u64> {
    ls.map_values(|l: LinkedTicket| l.thread_id)
}

/// How many times `id` occurs in `ids`.
pub open spec fn count_of(ids: Seq<u64>, id: u64) -> nat
    decreases ids.len(),
{
    if ids.len() == 0 {
        0
    } else {
        count_of(ids.drop_last(), id) + if ids.last() == id {
            1nat
        } else {
            0nat
        }
    }
}

/// Whether `name` begins with one of `prefixes`.
pub open spec fn has_prefix_in(prefixes: Seq<String>, name: Seq<char>) -> bool {
    exists|i: int| 0 <= i < prefixes.len() && (#[trigger] prefixes[i])@.is_prefix_of(name)
}

/// Whether a thread belongs to the forum that a project watches.
pub open spec fn in_forum_spec(t: ThreadRecord, forum_id: u64) -> bool {
    t.parent_id == Some(forum_id)
}

/// Whether a thread is a candidate for closing: managed by its prefix, still
/// open on the chat side, and referenced by no open ticket.
pub open spec fn awaits_discovery_spec(
    t: ThreadRecord,
    prefixes: Seq<String>,
    open_ids: Seq<u64>,
) -> bool {
    &&& has_prefix_in(prefixes, t.name@)
    &&& !t.locked
    &&& !t.archived
    &&& count_of(open_ids, t.id) == 0
}

/// The correction owed to a thread, given the identifiers of this cycle's open
/// tickets and the state of the ticket that discovery linked it to, if any.
/// An identifier carried by two or more open tickets is indeterminate: no action.
pub open spec fn correction_for(
    t: ThreadRecord,
    prefixes: Seq<String>,
    open_ids: Seq<u64>,
    linked_state: Option<TicketState>,
) -> Correction {
    let n = count_of(open_ids, t.id);
    if n == 1 {
        if t.locked || t.archived {
            Correction::Reopen
        } else {
            Correction::Nothing
        }
    } else if n > 1 {
        Correction::Nothing
    } else if awaits_discovery_spec(t, prefixes, open_ids) && linked_state == Some(
        TicketState::Closed,
    ) {
        Correction::Close
    } else {
        Correction::Nothing
    }
}

/// The calls that carry out a correction: the notification first, then the edit.
pub open spec fn calls_for(thread: u64, c: Correction) -> Seq<ThreadCall> {
    match c {
        Correction::Nothing => Seq::empty(),
        Correction::Reopen => seq![
            ThreadCall::Notify { thread, notice: Notice::Reopened },
            ThreadCall::Edit { thread, locked: false, archived: false },
        ],
        Correction::Close => seq![
            ThreadCall::Notify { thread, notice: Notice::Closed },
            ThreadCall::Edit { thread, locked: true, archived: true },
        ],
    }
}

/// The thread after a call: an edit of it sets its flags, anything else keeps it.
pub open spec fn apply_call(t: ThreadRecord, c: ThreadCall) -> ThreadRecord {
    match c {
        ThreadCall::Edit { thread, locked, archived } => if thread == t.id {
            ThreadRecord { locked, archived, ..t }
        } else {
            t
        },
        ThreadCall::Notify { .. } => t,
    }
}

pub open spec fn apply_calls(t: ThreadRecord, cs: Seq<ThreadCall>) -> ThreadRecord
    decreases cs.len(),
{
    if cs.len() == 0 {
        t
    } else {
        apply_call(apply_calls(t, cs.drop_last()), cs.last())
    }
}

/// An identifier that occurs in a sequence is counted at least once.
pub proof fn lemma_count_of_contains(ids: Seq<u64>, id: u64)
    requires
        ids.contains(id),
    ensures
        count_of(ids, id) >= 1,
    decreases ids.len(),
{
    if ids.last() != id {
        let k = choose|k: int| 0 <= k < ids.len() && ids[k] == id;
        assert(ids.drop_last()[k] == id);
        lemma_count_of_contains(ids.drop_last(), id);
    }
}

/// The thread after the calls of a correction.
pub proof fn lemma_apply_calls_for(t: ThreadRecord, c: Correction)
    ensures
        apply_calls(t, calls_for(t.id, c)) == (match c {
            Correction::Nothing => t,
            Correction::Reopen => ThreadRecord { locked: false, archived: false, ..t },
            Correction::Close => ThreadRecord { locked: true, archived: true, ..t },
        }),
{
    let cs = calls_for(t.id, c);
    if c != Correction::Nothing {
        assert(cs.drop_last().drop_last() =~= Seq::<ThreadCall>::empty());
        assert(apply_calls(t, cs.drop_last().drop_last()) == t);
        assert(cs.drop_last().last() == cs[0]);
        assert(apply_calls(t, cs.drop_last()) == t);
    }
}

/// A second pass over an unchanged snapshot makes no call: once the calls of
/// the first pass are applied to a thread, the thread is owed nothing more.
pub proof fn law_second_pass_is_quiet(
    t: ThreadRecord,
    prefixes: Seq<String>,
    open_ids: Seq<u64>,
    linked_state: Option<TicketState>,
)
    ensures
        ({
            let after = apply_calls(
                t,
                calls_for(t.id, correction_for(t, prefixes, open_ids, linked_state)),
            );
            &&& correction_for(after, prefixes, open_ids, linked_state) == Correction::Nothing
            &&& calls_for(after.id, correction_for(after, prefixes, open_ids, linked_state))
                == Seq::<ThreadCall>::empty()
        }),
{
    lemma_apply_calls_for(t, correction_for(t, prefixes, open_ids, linked_state));
}

/// A locked and archived thread referenced by exactly one open ticket gets the
/// reopened notification, then an edit that unlocks and unarchives it.
pub proof fn law_reopen(
    t: ThreadRecord,
    prefixes: Seq<String>,
    open_ids: Seq<u64>,
    linked_state: Option<TicketState>,
)
    requires
        t.locked,
        t.archived,
        count_of(open_ids, t.id) == 1,
    ensures
        calls_for(t.id, correction_for(t, prefixes, open_ids, linked_state)) == seq![
            ThreadCall::Notify { thread: t.id, notice: Notice::Reopened },
            ThreadCall::Edit { thread: t.id, locked: false, archived: false },
        ],
        !apply_calls(t, calls_for(t.id, correction_for(t, prefixes, open_ids, linked_state))).locked,
        !apply_calls(t, calls_for(t.id, correction_for(t, prefixes, open_ids, linked_state))).archived,
{
    lemma_apply_calls_for(t, Correction::Reopen);
}

/// An open, managed thread that no open ticket references, and whose
/// discovered ticket is closed, gets the closed notification, then an edit
/// that locks and archives it.
pub proof fn law_close(t: ThreadRecord, prefixes: Seq<String>, open_ids: Seq<u64>)
    requires
        !t.locked,
        !t.archived,
        has_prefix_in(prefixes, t.name@),
        count_of(open_ids, t.id) == 0,
    ensures
        calls_for(t.id, correction_for(t, prefixes, open_ids, Some(TicketState::Closed))) == seq![
            ThreadCall::Notify { thread: t.id, notice: Notice::Closed },
            ThreadCall::Edit { thread: t.id, locked: true, archived: true },
        ],
        apply_calls(
            t,
            calls_for(t.id, correction_for(t, prefixes, open_ids, Some(TicketState::Closed))),
        ).locked,
        apply_calls(
            t,
            calls_for(t.id, correction_for(t, prefixes, open_ids, Some(TicketState::Closed))),
        ).archived,
{
    lemma_apply_calls_for(t, Correction::Close);
}

/// No call is made for a thread that no open ticket references and that has
/// no recognised prefix, for one already in its target state, or for one whose
/// identifier two or more open tickets carry.
pub proof fn law_no_op(
    t: ThreadRecord,
    prefixes: Seq<String>,
    open_ids: Seq<u64>,
    linked_state: Option<TicketState>,
)
    requires
        (count_of(open_ids, t.id) == 0 && !has_prefix_in(prefixes, t.name@)) || (count_of(
            open_ids,
            t.id,
        ) == 1 && !t.locked && !t.archived) || (count_of(open_ids, t.id) == 0 && (t.locked
            || t.archived)) || count_of(open_ids, t.id) > 1,
    ensures
        correction_for(t, prefixes, open_ids, linked_state) == Correction::Nothing,
        calls_for(t.id, correction_for(t, prefixes, open_ids, linked_state)) == Seq::<
            ThreadCall,
        >::empty(),
{
}

/// The tickets of a search result that carry a thread identifier, in order.
pub fn linked_tickets(tickets: &Vec<TicketSummary>) -> (r: Vec<LinkedTicket>)
    ensures
        r@ == linked_of(tickets@),
{
    let mut r: Vec<LinkedTicket> = Vec::new();
    let mut i: usize = 0;
    while i < tickets.len()
        invariant
            i <= tickets@.len(),
            r@ == linked_of(tickets@.subrange(0, i as int)),
        decreases tickets@.len() - i,
    {
        let ghost w = tickets@.subrange(0, i as int + 1);
        assert(w.drop_last() =~= tickets@.subrange(0, i as int));
        assert(w.last() == tickets@[i as int]);
        match extract_thread_id(tickets[i].title.as_str()) {
            Some(id) => r.push(LinkedTicket { number: tickets[i].number, thread_id: id }),
            None => {},
        }
        i = i + 1;
    }
    assert(tickets@.subrange(0, i as int) =~= tickets@);
    r
}

/// The thread identifiers of linked tickets, in order.
pub fn open_thread_ids(linked: &Vec<LinkedTicket>) -> (r: Vec<u64>)
    ensures
        r@ == thread_ids_of(linked@),
{
    let mut r: Vec<u64> = Vec::new();
    let mut i: usize = 0;
    while i < linked.len()
        invariant
            i <= linked@.len(),
            r@ == thread_ids_of(linked@.subrange(0, i as int)),
        decreases linked@.len() - i,
    {
        r.push(linked[i].thread_id);
        i = i + 1;
        assert(thread_ids_of(linked@.subrange(0, i as int)) =~= thread_ids_of(
            linked@.subrange(0, i - 1),
        ).push(linked@[i - 1].thread_id));
    }
    assert(linked@.subrange(0, i as int) =~= linked@);
    r
}

/// How many times `id` occurs in `ids`.
pub fn count_id(ids: &Vec<u64>, id: u64) -> (r: usize)
    ensures
        r == count_of(ids@, id),
{
    let mut r: usize = 0;
    let mut i: usize = 0;
    while i < ids.len()
        invariant
            i <= ids@.len(),
            r == count_of(ids@.subrange(0, i as int), id),
            r <= i,
        decreases ids@.len() - i,
    {
        let ghost w = ids@.subrange(0, i as int + 1);
        assert(w.drop_last() =~= ids@.subrange(0, i as int));
        if ids[i] == id {
            r = r + 1;
        }
        i = i + 1;
    }
    assert(ids@.subrange(0, i as int) =~= ids@);
    r
}

/// Whether `id` is among `ids`.
pub fn contains_id(ids: &Vec<u64>, id: u64) -> (r: bool)
    ensures
        r == ids@.contains(id),
{
    let mut i: usize = 0;
    while i < ids.len()
        invariant
            i <= ids@.len(),
            forall|k: int| 0 <= k < i ==> ids@[k] != id,
        decreases ids@.len() - i,
    {
        if ids[i] == id {
            assert(ids@[i as int] == id);
            return true;
        }
        i = i + 1;
    }
    false
}

/// Whether `name` begins with one of `prefixes`.
pub fn has_managed_prefix(name: &str, prefixes: &Vec<String>) -> (r: bool)
    ensures
        r == has_prefix_in(prefixes@, name@),
{
    let mut i: usize = 0;
    while i < prefixes.len()
        invariant
            i <= prefixes@.len(),
            forall|k: int| 0 <= k < i ==> !(#[trigger] prefixes@[k])@.is_prefix_of(name@),
        decreases prefixes@.len() - i,
    {
        if starts_with(name, prefixes[i].as_str()) {
            return true;
        }
        i = i + 1;
    }
    false
}

/// Whether a thread belongs to the forum that a project watches.
pub fn in_forum(thread: &ThreadRecord, forum_id: u64) -> (r: bool)
    ensures
        r == in_forum_spec(*thread, forum_id),
{
    match thread.parent_id {
        Some(p) => p == forum_id,
        None => false,
    }
}

/// Whether a thread is a candidate for closing, so that discovery is worth running.
pub fn awaits_discovery(thread: &ThreadRecord, prefixes: &Vec<String>, open_ids: &Vec<u64>) -> (r:
    bool)
    ensures
        r == awaits_discovery_spec(*thread, prefixes@, open_ids@),
{
    has_managed_prefix(thread.name.as_str(), prefixes) && !thread.locked && !thread.archived
        && count_id(open_ids, thread.id) == 0
}

/// The correction owed to a thread in this cycle (see `correction_for`).
pub fn plan_correction(
    thread: &ThreadRecord,
    prefixes: &Vec<String>,
    open_ids: &Vec<u64>,
    linked_state: Option<TicketState>,
) -> (r: Correction)
    ensures
        r == correction_for(*thread, prefixes@, open_ids@, linked_state),
{
    let n = count_id(open_ids, thread.id);
    if n == 1 {
        if thread.locked || thread.archived {
            Correction::Reopen
        } else {
            Correction::Nothing
        }
    } else if n > 1 {
        Correction::Nothing
    } else if awaits_discovery(thread, prefixes, open_ids) && linked_state == Some(
        TicketState::Closed,
    ) {
        Correction::Close
    } else {
        Correction::Nothing
    }
}

/// The calls that carry out a correction, in the order they are to be made.
pub fn corrective_calls(thread_id: u64, c: Correction) -> (r: Vec<ThreadCall>)
    ensures
        r@ == calls_for(thread_id, c),
{
    let r = match c {
        Correction::Nothing => Vec::new(),
        Correction::Reopen => vec![
            ThreadCall::Notify { thread: thread_id, notice: Notice::Reopened },
            ThreadCall::Edit { thread: thread_id, locked: false, archived: false },
        ],
        Correction::Close => vec![
            ThreadCall::Notify { thread: thread_id, notice: Notice::Closed },
            ThreadCall::Edit { thread: thread_id, locked: true, archived: true },
        ],
    };
    assert(r@ =~= calls_for(thread_id, c));
    r
}

} // verus!
