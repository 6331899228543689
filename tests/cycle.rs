use cardibot::config::{default_thread_prefixes, ConfigError, Project};
use cardibot::constants::MSG_ISSUE_CREATED;
use cardibot::cycle::{CycleAction, CycleEvent, ProjectCycle};
use cardibot::discovery::{EmbedRecord, MessageRecord};
use cardibot::reconcile::{Notice, ThreadCall, ThreadRecord, TicketState, TicketSummary};

const GUILD: u64 = 100;
const FORUM: u64 = 200;

/// Both outside systems, as plain values.
struct World {
    tickets: Vec<(u64, String, TicketState)>,
    threads: Vec<ThreadRecord>,
    messages: Vec<(u64, Vec<MessageRecord>)>,
    calls: Vec<ThreadCall>,
}

fn project() -> Project {
    Project {
        name: None,
        discord_guild_id: GUILD.to_string(),
        discord_forum_id: FORUM.to_string(),
        github_owner: "acme".to_string(),
        github_repo: "app".to_string(),
        allowed_role_id: None,
    }
}

fn thread(id: u64, name: &str, locked: bool, archived: bool) -> ThreadRecord {
    ThreadRecord { id, parent_id: Some(FORUM), name: name.to_string(), locked, archived }
}

fn link_notice(number: u64) -> MessageRecord {
    MessageRecord {
        author_is_bot: true,
        embeds: vec![EmbedRecord {
            title: Some(MSG_ISSUE_CREATED.to_string()),
            description: Some(format!("**Issue**: https://github.com/acme/app/issues/{number}")),
        }],
    }
}

impl World {
    fn answer(&mut self, action: CycleAction) -> Option<CycleEvent> {
        Some(match action {
            CycleAction::SearchOpenTickets => CycleEvent::OpenTickets(
                self.tickets
                    .iter()
                    .filter(|t| t.2 == TicketState::Open)
                    .map(|t| TicketSummary { number: t.0, title: t.1.clone(), state: t.2 })
                    .collect(),
            ),
            CycleAction::LookUpThread { thread_id } => {
                match self.threads.iter().find(|t| t.id == thread_id) {
                    Some(t) => CycleEvent::ThreadFound(t.clone()),
                    None => CycleEvent::ThreadMissing,
                }
            }
            CycleAction::ListActiveThreads { guild_id } => {
                assert_eq!(guild_id, GUILD);
                CycleEvent::ActiveThreads(self.threads.iter().filter(|t| !t.archived).cloned().collect())
            }
            CycleAction::FetchMessages { thread_id } => CycleEvent::Messages(
                self.messages
                    .iter()
                    .find(|m| m.0 == thread_id)
                    .map(|m| m.1.clone())
                    .unwrap_or_default(),
            ),
            CycleAction::GetTicketState { number } => {
                match self.tickets.iter().find(|t| t.0 == number) {
                    Some(t) => CycleEvent::TicketFetched(Some(t.2)),
                    None => CycleEvent::Failed,
                }
            }
            CycleAction::Perform { calls } => {
                for c in &calls {
                    if let ThreadCall::Edit { thread, locked, archived } = *c {
                        for t in self.threads.iter_mut().filter(|t| t.id == thread) {
                            t.locked = locked;
                            t.archived = archived;
                        }
                    }
                }
                self.calls.extend(calls);
                CycleEvent::Performed
            }
            CycleAction::Finish => return None,
        })
    }

    /// Runs one cycle and returns the calls it made.
    fn run_cycle(&mut self) -> Vec<ThreadCall> {
        let before = self.calls.len();
        let (mut cycle, mut action) = ProjectCycle::new(&project(), &default_thread_prefixes()).unwrap();
        for _ in 0..1000 {
            match self.answer(action) {
                Some(event) => action = cycle.step(event),
                None => return self.calls[before..].to_vec(),
            }
        }
        panic!("cycle did not finish");
    }
}

fn world() -> World {
    World {
        tickets: vec![
            (1, "Bug with login [1234567890]".to_string(), TicketState::Open),
            (42, "Old request [2000]".to_string(), TicketState::Closed),
            (7, "Dup A [3000]".to_string(), TicketState::Open),
            (8, "Dup B [3000]".to_string(), TicketState::Open),
        ],
        threads: vec![
            thread(1234567890, "[BUG] login", true, true),
            thread(2000, "[FEATURE] old request", false, false),
            thread(3000, "[BUG] duplicated", true, false),
            thread(4000, "chatter", false, false),
            thread(5000, "[QUESTION] unlinked", false, false),
        ],
        messages: vec![
            (2000, vec![link_notice(42)]),
            (4000, vec![link_notice(42)]),
        ],
        calls: vec![],
    }
}

#[test]
fn one_cycle_reopens_and_closes() {
    let mut w = world();
    let calls = w.run_cycle();
    assert_eq!(
        calls,
        vec![
            ThreadCall::Notify { thread: 1234567890, notice: Notice::Reopened },
            ThreadCall::Edit { thread: 1234567890, locked: false, archived: false },
            ThreadCall::Notify { thread: 2000, notice: Notice::Closed },
            ThreadCall::Edit { thread: 2000, locked: true, archived: true },
        ]
    );
}

#[test]
fn second_cycle_on_unchanged_state_makes_no_call() {
    let mut w = world();
    assert!(!w.run_cycle().is_empty());
    assert!(w.run_cycle().is_empty());
}

#[test]
fn missing_threads_are_counted() {
    let mut w = world();
    w.threads.retain(|t| t.id != 1234567890);
    let (mut cycle, mut action) = ProjectCycle::new(&project(), &default_thread_prefixes()).unwrap();
    while let Some(event) = w.answer(action) {
        action = cycle.step(event);
    }
    assert_eq!(cycle.missing_threads(), 1);
    assert_eq!(cycle.existing_threads(), 2);
}

#[test]
fn failed_listing_ends_the_cycle() {
    let (mut cycle, action) = ProjectCycle::new(&project(), &default_thread_prefixes()).unwrap();
    assert!(matches!(action, CycleAction::SearchOpenTickets));
    assert!(matches!(cycle.step(CycleEvent::Failed), CycleAction::Finish));
    assert!(matches!(cycle.step(CycleEvent::Performed), CycleAction::Finish));
}

#[test]
fn failed_fetch_skips_only_that_thread() {
    let prefixes = default_thread_prefixes();
    let (mut cycle, _) = ProjectCycle::new(&project(), &prefixes).unwrap();
    let a = cycle.step(CycleEvent::OpenTickets(vec![]));
    assert!(matches!(a, CycleAction::ListActiveThreads { guild_id: GUILD }));
    let a = cycle.step(CycleEvent::ActiveThreads(vec![
        thread(1, "[BUG] a", false, false),
        thread(2, "[BUG] b", false, false),
    ]));
    assert!(matches!(a, CycleAction::FetchMessages { thread_id: 1 }));
    let a = cycle.step(CycleEvent::Failed);
    assert!(matches!(a, CycleAction::FetchMessages { thread_id: 2 }));
    let a = cycle.step(CycleEvent::Messages(vec![link_notice(9)]));
    assert!(matches!(a, CycleAction::GetTicketState { number: 9 }));
    match cycle.step(CycleEvent::TicketFetched(Some(TicketState::Closed))) {
        CycleAction::Perform { calls } => assert_eq!(
            calls,
            vec![
                ThreadCall::Notify { thread: 2, notice: Notice::Closed },
                ThreadCall::Edit { thread: 2, locked: true, archived: true },
            ]
        ),
        _ => panic!("expected the closing calls"),
    }
    assert!(matches!(cycle.step(CycleEvent::Failed), CycleAction::Finish));
}

#[test]
fn malformed_project_identifiers_give_no_cycle() {
    let mut p = project();
    p.discord_forum_id = "forum".to_string();
    assert!(matches!(
        ProjectCycle::new(&p, &default_thread_prefixes()),
        Err(ConfigError::InvalidForumId)
    ));
    p.discord_guild_id = "0".to_string();
    assert!(matches!(
        ProjectCycle::new(&p, &default_thread_prefixes()),
        Err(ConfigError::InvalidGuildId)
    ));
}

#[test]
fn lookup_of_another_thread_counts_as_missing() {
    let prefixes = default_thread_prefixes();
    let (mut cycle, _) = ProjectCycle::new(&project(), &prefixes).unwrap();
    let tickets = vec![
        TicketSummary { number: 1, title: "A [10]".to_string(), state: TicketState::Open },
        TicketSummary { number: 2, title: "B [11]".to_string(), state: TicketState::Open },
        TicketSummary { number: 3, title: "C [12]".to_string(), state: TicketState::Open },
    ];
    assert!(matches!(cycle.step(CycleEvent::OpenTickets(tickets)), CycleAction::LookUpThread { thread_id: 10 }));
    let a = cycle.step(CycleEvent::ThreadFound(thread(99, "[BUG] other", true, true)));
    assert!(matches!(a, CycleAction::LookUpThread { thread_id: 11 }));
    let a = cycle.step(CycleEvent::OtherChannel);
    assert!(matches!(a, CycleAction::LookUpThread { thread_id: 12 }));
    let a = cycle.step(CycleEvent::ThreadFound(thread(12, "[BUG] c", false, false)));
    assert!(matches!(a, CycleAction::ListActiveThreads { guild_id: GUILD }));
    assert_eq!(cycle.missing_threads(), 1);
    assert_eq!(cycle.existing_threads(), 2);
}

#[test]
fn missing_thread_zero_gets_no_call() {
    let prefixes = default_thread_prefixes();
    let (mut cycle, _) = ProjectCycle::new(&project(), &prefixes).unwrap();
    let tickets = vec![TicketSummary { number: 1, title: "x [0]".to_string(), state: TicketState::Open }];
    assert!(matches!(cycle.step(CycleEvent::OpenTickets(tickets)), CycleAction::LookUpThread { thread_id: 0 }));
    assert!(matches!(cycle.step(CycleEvent::ThreadMissing), CycleAction::ListActiveThreads { .. }));
    assert_eq!(cycle.missing_threads(), 1);
}
