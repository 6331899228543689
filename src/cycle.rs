//! One reconciliation cycle of one project, as a machine that asks for each
//! outside operation in turn and decides from its result what comes next.
//!
//! Order: the open tickets are listed first; the thread of each linked ticket
//! is looked up and reopened where needed; then the forum's active threads are
//! swept for threads whose discovered ticket is closed. A failed lookup, fetch
//! or call skips that ticket or thread only; a failed listing ends the cycle.
use vstd::prelude::*;
use crate::config::{snowflake_spec, ConfigError, Project};
use crate::discovery::{discover_linked_ticket, discovered_ticket, MessageRecord};
use crate::reconcile::{
    apply_calls, awaits_discovery, awaits_discovery_spec, calls_for, corrective_calls,
    correction_for, count_of, has_prefix_in, in_forum, in_forum_spec, law_close, law_reopen,
    law_second_pass_is_quiet, lemma_apply_calls_for, lemma_count_of_contains, linked_of,
    linked_tickets, open_thread_ids, plan_correction, thread_ids_of, LinkedTicket, Notice,
    ThreadCall, ThreadRecord, TicketState, TicketSummary,
};

verus! {

/// Where a cycle stands.
#[derive(Clone, Copy, Debug, PartialEq, Eq, Structural)]
pub enum Phase {
    /// Waiting for the open tickets.
    Searching,
    /// Waiting for the thread of the linked ticket at the current position.
    LookingUp,
    /// Waiting for the calls that reopen that thread.
    Reopening,
    /// Waiting for the forum's active threads.
    Listing,
    /// Waiting for the recent messages of the thread at the current position.
    Fetching,
    /// Waiting for the state of the ticket discovered for that thread.
    Checking,
    /// Waiting for the calls that close that thread.
    Closing,
    Done,
}

/// The outside operation a cycle asks for next.
pub enum CycleAction {
    SearchOpenTickets,
    LookUpThread { thread_id: u64 },
    ListActiveThreads { guild_id: u64 },
    FetchMessages { thread_id: u64 },
    GetTicketState { number: u64 },
    /// Make these calls in order, stopping at the first that fails.
    Perform { calls: Vec<ThreadCall> },
    Finish,
}

/// The result of the operation last asked for.
pub enum CycleEvent {
    OpenTickets(Vec<TicketSummary>),
    /// The thread exists and is a public thread.
    ThreadFound(ThreadRecord),
    /// A channel with the identifier exists, but it is not a public thread.
    OtherChannel,
    /// No channel with the identifier exists, or it cannot be read.
    ThreadMissing,
    ActiveThreads(Vec<ThreadRecord>),
    Messages(Vec<MessageRecord>),
    /// The ticket's lifecycle state, where it is one the library knows.
    TicketFetched(Option<TicketState>),
    Performed,
    Failed,
}

/// The state of one project's cycle.
pub struct ProjectCycle {
    prefixes: Vec<String>,
    guild_id: u64,
    forum_id: u64,
    phase: Phase,
    linked: Vec<LinkedTicket>,
    open_ids: Vec<u64>,
    threads: Vec<ThreadRecord>,
    pos: usize,
    existing: usize,
    missing: usize,
}

/// One more, up to the largest `usize`.
pub open spec fn saturating_inc(n: nat) -> nat {
    if n < usize::MAX {
        n + 1
    } else {
        n
    }
}

/// The thread that a lookup reports, where it is the thread `id` asked for.
pub open spec fn matching_thread(event: CycleEvent, id: u64) -> Option<ThreadRecord> {
    match event {
        CycleEvent::ThreadFound(t) => if t.id == id {
            Some(t)
        } else {
            None
        },
        _ => None,
    }
}

/// The calls owed after a lookup of thread `id`: those that reopen it, where needed.
pub open spec fn reopen_calls(
    event: CycleEvent,
    id: u64,
    prefixes: Seq<String>,
    open_ids: Seq<u64>,
) -> Seq<ThreadCall> {
    match matching_thread(event, id) {
        Some(t) => calls_for(t.id, correction_for(t, prefixes, open_ids, None)),
        None => Seq::empty(),
    }
}

/// The calls owed to swept thread `t` once the state of its discovered ticket is known.
pub open spec fn close_calls(
    event: CycleEvent,
    t: ThreadRecord,
    prefixes: Seq<String>,
    open_ids: Seq<u64>,
) -> Seq<ThreadCall> {
    match event {
        CycleEvent::TicketFetched(s) => calls_for(t.id, correction_for(t, prefixes, open_ids, s)),
        _ => Seq::empty(),
    }
}

/// Whether the sweep looks into a thread: one of the forum that awaits discovery.
pub open spec fn sweep_candidate(
    t: ThreadRecord,
    forum_id: u64,
    prefixes: Seq<String>,
    open_ids: Seq<u64>,
) -> bool {
    in_forum_spec(t, forum_id) && awaits_discovery_spec(t, prefixes, open_ids)
}

/// The position of the first sweep candidate at or after `k`.
pub open spec fn next_candidate(
    ts: Seq<ThreadRecord>,
    forum_id: u64,
    prefixes: Seq<String>,
    open_ids: Seq<u64>,
    k: int,
) -> Option<int>
    decreases ts.len() - k,
{
    if k < 0 || k >= ts.len() {
        None
    } else if sweep_candidate(ts[k], forum_id, prefixes, open_ids) {
        Some(k)
    } else {
        next_candidate(ts, forum_id, prefixes, open_ids, k + 1)
    }
}

/// A second pass over the thread of an open ticket, once the calls of the
/// first lookup are applied to it, owes no call.
pub proof fn law_lookup_second_pass_is_quiet(
    t: ThreadRecord,
    id: u64,
    prefixes: Seq<String>,
    open_ids: Seq<u64>,
)
    ensures
        reopen_calls(
            CycleEvent::ThreadFound(
                apply_calls(t, reopen_calls(CycleEvent::ThreadFound(t), id, prefixes, open_ids)),
            ),
            id,
            prefixes,
            open_ids,
        ) == Seq::<ThreadCall>::empty(),
{
    law_second_pass_is_quiet(t, prefixes, open_ids, None);
    if t.id != id {
        assert(apply_calls(t, Seq::<ThreadCall>::empty()) == t);
    }
}

/// A second sweep over a thread, once the calls of the first are applied to
/// it and its ticket's state is unchanged, owes no call; a thread that was
/// closed is no longer even a candidate.
pub proof fn law_sweep_second_pass_is_quiet(
    t: ThreadRecord,
    forum_id: u64,
    prefixes: Seq<String>,
    open_ids: Seq<u64>,
    s: Option<TicketState>,
)
    ensures
        ({
            let cs = close_calls(CycleEvent::TicketFetched(s), t, prefixes, open_ids);
            let after = apply_calls(t, cs);
            &&& close_calls(CycleEvent::TicketFetched(s), after, prefixes, open_ids)
                == Seq::<ThreadCall>::empty()
            &&& cs.len() > 0 ==> !sweep_candidate(after, forum_id, prefixes, open_ids)
        }),
{
    law_second_pass_is_quiet(t, prefixes, open_ids, s);
    lemma_apply_calls_for(t, correction_for(t, prefixes, open_ids, s));
}

/// A locked and archived thread, found for the one open ticket that carries
/// its identifier, is owed the reopened notice, then the edit that unlocks and
/// unarchives it.
pub proof fn law_lookup_reopens(t: ThreadRecord, prefixes: Seq<String>, open_ids: Seq<u64>)
    requires
        t.locked,
        t.archived,
        count_of(open_ids, t.id) == 1,
    ensures
        reopen_calls(CycleEvent::ThreadFound(t), t.id, prefixes, open_ids) == seq![
            ThreadCall::Notify { thread: t.id, notice: Notice::Reopened },
            ThreadCall::Edit { thread: t.id, locked: false, archived: false },
        ],
{
    law_reopen(t, prefixes, open_ids, None);
}

/// A swept thread whose discovered ticket is closed is owed the closed notice,
/// then the edit that locks and archives it.
pub proof fn law_sweep_closes(t: ThreadRecord, forum_id: u64, prefixes: Seq<String>, open_ids: Seq<u64>)
    requires
        sweep_candidate(t, forum_id, prefixes, open_ids),
    ensures
        close_calls(CycleEvent::TicketFetched(Some(TicketState::Closed)), t, prefixes, open_ids)
            == seq![
            ThreadCall::Notify { thread: t.id, notice: Notice::Closed },
            ThreadCall::Edit { thread: t.id, locked: true, archived: true },
        ],
{
    law_close(t, prefixes, open_ids);
}

/// No call is owed after a lookup that finds no thread, finds another thread,
/// finds one already unlocked and unarchived, or finds one whose identifier
/// two or more open tickets carry; nor to a swept thread whose ticket is not
/// known to be closed. The sweep never looks into a thread without a
/// recognised prefix, nor into one that is locked, archived or referenced by
/// an open ticket.
pub proof fn law_no_call(
    event: CycleEvent,
    t: ThreadRecord,
    id: u64,
    forum_id: u64,
    prefixes: Seq<String>,
    open_ids: Seq<u64>,
    s: Option<TicketState>,
)
    ensures
        matching_thread(event, id) is None ==> reopen_calls(event, id, prefixes, open_ids)
            == Seq::<ThreadCall>::empty(),
        (!t.locked && !t.archived) || count_of(open_ids, t.id) > 1 ==> reopen_calls(
            CycleEvent::ThreadFound(t),
            id,
            prefixes,
            open_ids,
        ) == Seq::<ThreadCall>::empty(),
        sweep_candidate(t, forum_id, prefixes, open_ids) && s != Some(TicketState::Closed)
            ==> close_calls(
            CycleEvent::TicketFetched(s),
            t,
            prefixes,
            open_ids,
        ) == Seq::<ThreadCall>::empty(),
        (!has_prefix_in(prefixes, t.name@) || t.locked || t.archived || open_ids.contains(t.id))
            ==> !sweep_candidate(t, forum_id, prefixes, open_ids),
{
    if open_ids.contains(t.id) {
        lemma_count_of_contains(open_ids, t.id);
    }
}

impl ProjectCycle {
    pub closed spec fn phase_spec(&self) -> Phase {
        self.phase
    }

    pub closed spec fn pos_spec(&self) -> int {
        self.pos as int
    }

    pub closed spec fn prefixes_spec(&self) -> Seq<String> {
        self.prefixes@
    }

    pub closed spec fn guild_spec(&self) -> u64 {
        self.guild_id
    }

    pub closed spec fn forum_spec(&self) -> u64 {
        self.forum_id
    }

    pub closed spec fn linked_spec(&self) -> Seq<LinkedTicket> {
        self.linked@
    }

    pub closed spec fn open_ids_spec(&self) -> Seq<u64> {
        self.open_ids@
    }

    pub closed spec fn threads_spec(&self) -> Seq<ThreadRecord> {
        self.threads@
    }

    pub closed spec fn existing_spec(&self) -> nat {
        self.existing as nat
    }

    pub closed spec fn missing_spec(&self) -> nat {
        self.missing as nat
    }

    /// The ticket or thread the cycle is at holds a valid position.
    pub closed spec fn wf(&self) -> bool {
        &&& self.open_ids@ == thread_ids_of(self.linked@)
        &&& (self.phase == Phase::LookingUp || self.phase == Phase::Reopening) ==> self.pos
            < self.linked@.len()
        &&& (self.phase == Phase::Fetching || self.phase == Phase::Checking || self.phase
            == Phase::Closing) ==> self.pos < self.threads@.len() && sweep_candidate(
            self.threads@[self.pos as int],
            self.forum_id,
            self.prefixes@,
            self.open_ids@,
        )
    }

    /// A cycle for `project`, managing threads that bear one of `prefixes`;
    /// its first action is the search for open tickets. A project whose guild
    /// or forum identifier is malformed gets no cycle.
    pub fn new(project: &Project, prefixes: &Vec<String>) -> (r: Result<(ProjectCycle, CycleAction), ConfigError>)
        ensures
            r matches Err(e) ==> if snowflake_spec(project.discord_guild_id@) is None {
                e == ConfigError::InvalidGuildId
            } else {
                snowflake_spec(project.discord_forum_id@) is None && e == ConfigError::InvalidForumId
            },
            r matches Ok((c, a)) ==> {
                &&& snowflake_spec(project.discord_guild_id@) == Some(c.guild_spec())
                &&& snowflake_spec(project.discord_forum_id@) == Some(c.forum_spec())
                &&& c.prefixes_spec() == prefixes@
                &&& c.phase_spec() == Phase::Searching
                &&& c.existing_spec() == 0
                &&& c.missing_spec() == 0
                &&& c.wf()
                &&& a is SearchOpenTickets
            },
            r is Ok <==> (snowflake_spec(project.discord_guild_id@) is Some && snowflake_spec(
                project.discord_forum_id@,
            ) is Some),
    {
        let guild_id = match project.guild_id() {
            Ok(g) => g,
            Err(e) => return Err(e),
        };
        let forum_id = match project.forum_id() {
            Ok(f) => f,
            Err(e) => return Err(e),
        };
        let c = ProjectCycle {
            prefixes: crate::config::copy_strings(prefixes),
            guild_id,
            forum_id,
            phase: Phase::Searching,
            linked: Vec::new(),
            open_ids: Vec::new(),
            threads: Vec::new(),
            pos: 0,
            existing: 0,
            missing: 0,
        };
        assert(c.open_ids@ =~= thread_ids_of(c.linked@));
        Ok((c, CycleAction::SearchOpenTickets))
    }

    /// How many threads of open tickets were found (and, where needed,
    /// reopened) this cycle.
    pub fn existing_threads(&self) -> (r: usize)
        ensures
            r == self.existing_spec(),
    {
        self.existing
    }

    /// How many threads of open tickets were missing, or could not be
    /// reopened, this cycle.
    pub fn missing_threads(&self) -> (r: usize)
        ensures
            r == self.missing_spec(),
    {
        self.missing
    }

    /// Moves to the next linked ticket, or to the sweep after the last one.
    fn next_ticket(&mut self, from: usize) -> (r: CycleAction)
        requires
            old(self).open_ids@ == thread_ids_of(old(self).linked@),
            from <= old(self).linked@.len(),
        ensures
            final(self).wf(),
            final(self).prefixes@ == old(self).prefixes@,
            final(self).guild_id == old(self).guild_id,
            final(self).forum_id == old(self).forum_id,
            final(self).linked@ == old(self).linked@,
            final(self).open_ids@ == old(self).open_ids@,
            final(self).threads@ == old(self).threads@,
            final(self).existing == old(self).existing,
            final(self).missing == old(self).missing,
            from < old(self).linked@.len() ==> final(self).phase == Phase::LookingUp
                && final(self).pos == from && r == (CycleAction::LookUpThread {
                thread_id: old(self).linked@[from as int].thread_id,
            }),
            from == old(self).linked@.len() ==> final(self).phase == Phase::Listing && r == (
            CycleAction::ListActiveThreads { guild_id: old(self).guild_id }),
    {
        if from < self.linked.len() {
            self.phase = Phase::LookingUp;
            self.pos = from;
            CycleAction::LookUpThread { thread_id: self.linked[from].thread_id }
        } else {
            self.phase = Phase::Listing;
            self.pos = from;
            CycleAction::ListActiveThreads { guild_id: self.guild_id }
        }
    }

    /// Moves to the first sweep candidate at or after `from`, or ends the cycle.
    fn next_candidate_from(&mut self, from: usize) -> (r: CycleAction)
        requires
            old(self).open_ids@ == thread_ids_of(old(self).linked@),
            from <= old(self).threads@.len(),
        ensures
            final(self).wf(),
            final(self).prefixes@ == old(self).prefixes@,
            final(self).guild_id == old(self).guild_id,
            final(self).forum_id == old(self).forum_id,
            final(self).linked@ == old(self).linked@,
            final(self).open_ids@ == old(self).open_ids@,
            final(self).threads@ == old(self).threads@,
            final(self).existing == old(self).existing,
            final(self).missing == old(self).missing,
            ({
                let ts = old(self).threads@;
                match next_candidate(
                    ts,
                    old(self).forum_id,
                    old(self).prefixes@,
                    old(self).open_ids@,
                    from as int,
                ) {
                    Some(k) => final(self).phase == Phase::Fetching && final(self).pos == k && r
                        == (CycleAction::FetchMessages { thread_id: ts[k].id }),
                    None => final(self).phase == Phase::Done && r == CycleAction::Finish,
                }
            }),
    {
        let mut k: usize = from;
        while k < self.threads.len()
            invariant
                from <= k <= self.threads@.len(),
                self.open_ids@ == thread_ids_of(self.linked@),
                *self == *old(self),
                next_candidate(
                    self.threads@,
                    self.forum_id,
                    self.prefixes@,
                    self.open_ids@,
                    from as int,
                ) == next_candidate(
                    self.threads@,
                    self.forum_id,
                    self.prefixes@,
                    self.open_ids@,
                    k as int,
                ),
            decreases self.threads@.len() - k,
        {
            if in_forum(&self.threads[k], self.forum_id) && awaits_discovery(
                &self.threads[k],
                &self.prefixes,
                &self.open_ids,
            ) {
                self.phase = Phase::Fetching;
                self.pos = k;
                return CycleAction::FetchMessages { thread_id: self.threads[k].id };
            }
            k = k + 1;
        }
        self.phase = Phase::Done;
        CycleAction::Finish
    }

    /// Takes the result of the last operation and says which operation comes next.
    pub fn step(&mut self, event: CycleEvent) -> (r: CycleAction)
        requires
            old(self).wf(),
        ensures
            final(self).wf(),
            final(self).prefixes_spec() == old(self).prefixes_spec(),
            final(self).guild_spec() == old(self).guild_spec(),
            final(self).forum_spec() == old(self).forum_spec(),
            // The open tickets fix the linked tickets and the open identifiers of the cycle.
            old(self).phase_spec() == Phase::Searching ==> (match event {
                CycleEvent::OpenTickets(ts) => {
                    &&& final(self).linked_spec() == linked_of(ts@)
                    &&& final(self).open_ids_spec() == thread_ids_of(linked_of(ts@))
                    &&& if linked_of(ts@).len() > 0 {
                        r == (CycleAction::LookUpThread {
                            thread_id: linked_of(ts@)[0].thread_id,
                        })
                    } else {
                        r == (CycleAction::ListActiveThreads { guild_id: old(self).guild_spec() })
                    }
                },
                _ => r == CycleAction::Finish,
            }),
            // Past the search, the linked tickets stay as they are.
            old(self).phase_spec() != Phase::Searching ==> final(self).linked_spec() == old(
                self,
            ).linked_spec() && final(self).open_ids_spec() == old(self).open_ids_spec(),
            // A looked-up thread of an open ticket gets exactly the calls its
            // correction needs; no other event leads to a call.
            old(self).phase_spec() == Phase::LookingUp ==> ({
                let cs = reopen_calls(
                    event,
                    old(self).linked_spec()[old(self).pos_spec()].thread_id,
                    old(self).prefixes_spec(),
                    old(self).open_ids_spec(),
                );
                &&& (r is Perform <==> cs.len() > 0)
                &&& r matches CycleAction::Perform { calls } ==> calls@ == cs
            }),
            // After a lookup or a reopening, the next linked ticket comes, or the listing.
            (old(self).phase_spec() == Phase::Reopening || (old(self).phase_spec()
                == Phase::LookingUp && !(r is Perform))) ==> (if old(self).pos_spec() + 1 < old(
                self,
            ).linked_spec().len() {
                r == (CycleAction::LookUpThread {
                    thread_id: old(self).linked_spec()[old(self).pos_spec() + 1].thread_id,
                })
            } else {
                r == (CycleAction::ListActiveThreads { guild_id: old(self).guild_spec() })
            }),
            // The listing fixes the threads; the sweep visits its candidates in order.
            old(self).phase_spec() == Phase::Listing ==> (match event {
                CycleEvent::ActiveThreads(ts) => {
                    &&& final(self).threads_spec() == ts@
                    &&& match next_candidate(
                        ts@,
                        old(self).forum_spec(),
                        old(self).prefixes_spec(),
                        old(self).open_ids_spec(),
                        0,
                    ) {
                        Some(k) => r == (CycleAction::FetchMessages { thread_id: ts@[k].id }),
                        None => r == CycleAction::Finish,
                    }
                },
                _ => r == CycleAction::Finish,
            }),
            old(self).phase_spec() != Phase::Searching && old(self).phase_spec() != Phase::Listing
                ==> final(self).threads_spec() == old(self).threads_spec(),
            // Messages that link a ticket lead to its state; the state to the calls.
            old(self).phase_spec() == Phase::Fetching ==> (match event {
                CycleEvent::Messages(ms) => match discovered_ticket(ms@) {
                    Some(n) => r == (CycleAction::GetTicketState { number: n }),
                    None => !(r is Perform) && !(r is GetTicketState),
                },
                _ => !(r is Perform) && !(r is GetTicketState),
            }),
            // A swept thread gets exactly the calls owed once its ticket's state is known.
            old(self).phase_spec() == Phase::Checking ==> ({
                let cs = close_calls(
                    event,
                    old(self).threads_spec()[old(self).pos_spec()],
                    old(self).prefixes_spec(),
                    old(self).open_ids_spec(),
                );
                &&& (r is Perform <==> cs.len() > 0)
                &&& r matches CycleAction::Perform { calls } ==> calls@ == cs
            }),
            // Calls are asked for only after a lookup or a ticket state.
            old(self).phase_spec() != Phase::LookingUp && old(self).phase_spec() != Phase::Checking
                ==> !(r is Perform),
            // Each action leaves the cycle waiting for its result.
            r matches CycleAction::LookUpThread { thread_id } ==> {
                &&& final(self).phase_spec() == Phase::LookingUp
                &&& final(self).pos_spec() == if old(self).phase_spec() == Phase::Searching {
                    0
                } else {
                    old(self).pos_spec() + 1
                }
                &&& final(self).linked_spec()[final(self).pos_spec()].thread_id == thread_id
            },
            r is ListActiveThreads ==> final(self).phase_spec() == Phase::Listing,
            r matches CycleAction::FetchMessages { thread_id } ==> {
                &&& final(self).phase_spec() == Phase::Fetching
                &&& Some(final(self).pos_spec()) == next_candidate(
                    final(self).threads_spec(),
                    old(self).forum_spec(),
                    old(self).prefixes_spec(),
                    old(self).open_ids_spec(),
                    if old(self).phase_spec() == Phase::Listing {
                        0
                    } else {
                        old(self).pos_spec() + 1
                    },
                )
                &&& final(self).threads_spec()[final(self).pos_spec()].id == thread_id
            },
            r is GetTicketState ==> final(self).phase_spec() == Phase::Checking
                && final(self).pos_spec() == old(self).pos_spec(),
            r is Perform ==> final(self).pos_spec() == old(self).pos_spec()
                && final(self).phase_spec() == if old(self).phase_spec() == Phase::LookingUp {
                Phase::Reopening
            } else {
                Phase::Closing
            },
            r is Finish ==> final(self).phase_spec() == Phase::Done,
            r is SearchOpenTickets ==> false,
            // Whenever the sweep moves on, it goes to the next candidate after the current one.
            ((old(self).phase_spec() == Phase::Fetching && !(r is GetTicketState)) || (old(
                self,
            ).phase_spec() == Phase::Checking && !(r is Perform)) || old(self).phase_spec()
                == Phase::Closing) ==> match next_candidate(
                old(self).threads_spec(),
                old(self).forum_spec(),
                old(self).prefixes_spec(),
                old(self).open_ids_spec(),
                old(self).pos_spec() + 1,
            ) {
                Some(k) => r == (CycleAction::FetchMessages {
                    thread_id: old(self).threads_spec()[k].id,
                }),
                None => r == CycleAction::Finish,
            },
            old(self).phase_spec() == Phase::Done ==> r == CycleAction::Finish,
            // A thread of an open ticket counts as missing when the lookup finds
            // none (or another thread) or the reopening fails; as existing otherwise.
            ({
                let id = old(self).linked_spec()[old(self).pos_spec()].thread_id;
                let here = matching_thread(event, id) is Some || event is OtherChannel;
                let found = (old(self).phase_spec() == Phase::LookingUp && here && !(r is Perform))
                    || (old(self).phase_spec() == Phase::Reopening && event is Performed);
                let lost = (old(self).phase_spec() == Phase::LookingUp && !here) || (old(
                    self,
                ).phase_spec() == Phase::Reopening && !(event is Performed));
                &&& found ==> final(self).existing_spec() == saturating_inc(old(self).existing_spec())
                &&& !found ==> final(self).existing_spec() == old(self).existing_spec()
                &&& lost ==> final(self).missing_spec() == saturating_inc(old(self).missing_spec())
                &&& !lost ==> final(self).missing_spec() == old(self).missing_spec()
            }),
    {
        let ghost n_linked = self.linked@.len();
        let ghost n_threads = self.threads@.len();
        assert(self.linked.len() == n_linked && self.threads.len() == n_threads);
        match self.phase {
            Phase::Searching => match event {
                CycleEvent::OpenTickets(ts) => {
                    let linked = linked_tickets(&ts);
                    let ids = open_thread_ids(&linked);
                    self.linked = linked;
                    self.open_ids = ids;
                    self.next_ticket(0)
                },
                _ => {
                    self.phase = Phase::Done;
                    CycleAction::Finish
                },
            },
            Phase::LookingUp => match event {
                CycleEvent::ThreadFound(t) if t.id == self.linked[self.pos].thread_id => {
                    let c = plan_correction(&t, &self.prefixes, &self.open_ids, None);
                    let calls = corrective_calls(t.id, c);
                    if calls.len() > 0 {
                        self.phase = Phase::Reopening;
                        CycleAction::Perform { calls }
                    } else {
                        if self.existing < usize::MAX {
                            self.existing = self.existing + 1;
                        }
                        self.next_ticket(self.pos + 1)
                    }
                },
                CycleEvent::OtherChannel => {
                    if self.existing < usize::MAX {
                        self.existing = self.existing + 1;
                    }
                    self.next_ticket(self.pos + 1)
                },
                _ => {
                    if self.missing < usize::MAX {
                        self.missing = self.missing + 1;
                    }
                    self.next_ticket(self.pos + 1)
                },
            },
            Phase::Reopening => {
                match event {
                    CycleEvent::Performed => {
                        if self.existing < usize::MAX {
                            self.existing = self.existing + 1;
                        }
                    },
                    _ => {
                        if self.missing < usize::MAX {
                            self.missing = self.missing + 1;
                        }
                    },
                }
                self.next_ticket(self.pos + 1)
            },
            Phase::Listing => match event {
                CycleEvent::ActiveThreads(ts) => {
                    self.threads = ts;
                    self.next_candidate_from(0)
                },
                _ => {
                    self.phase = Phase::Done;
                    CycleAction::Finish
                },
            },
            Phase::Fetching => match event {
                CycleEvent::Messages(ms) => match discover_linked_ticket(&ms) {
                    Some(n) => {
                        self.phase = Phase::Checking;
                        CycleAction::GetTicketState { number: n }
                    },
                    None => self.next_candidate_from(self.pos + 1),
                },
                _ => self.next_candidate_from(self.pos + 1),
            },
            Phase::Checking => match event {
                CycleEvent::TicketFetched(s) => {
                    let c = plan_correction(&self.threads[self.pos], &self.prefixes, &self.open_ids, s);
                    let calls = corrective_calls(self.threads[self.pos].id, c);
                    if calls.len() > 0 {
                        self.phase = Phase::Closing;
                        CycleAction::Perform { calls }
                    } else {
                        self.next_candidate_from(self.pos + 1)
                    }
                },
                _ => self.next_candidate_from(self.pos + 1),
            },
            Phase::Closing => self.next_candidate_from(self.pos + 1),
            Phase::Done => CycleAction::Finish,
        }
    }
}

} // verus!
