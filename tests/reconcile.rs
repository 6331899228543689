use cardibot::codec::encode;
use cardibot::config::default_thread_prefixes;
use cardibot::reconcile::{
    awaits_discovery, contains_id, corrective_calls, count_id, has_managed_prefix, in_forum,
    linked_tickets, open_thread_ids, plan_correction, Correction, LinkedTicket, Notice, ThreadCall,
    ThreadRecord, TicketState, TicketSummary,
};

const FORUM: u64 = 555;

fn thread(id: u64, name: &str, locked: bool, archived: bool) -> ThreadRecord {
    ThreadRecord { id, parent_id: Some(FORUM), name: name.to_string(), locked, archived }
}

fn ticket(number: u64, title: &str) -> TicketSummary {
    TicketSummary { number, title: title.to_string(), state: TicketState::Open }
}

/// Applies the edits among `calls` to the thread, as the chat platform would.
fn apply(t: &mut ThreadRecord, calls: &[ThreadCall]) {
    for c in calls {
        if let ThreadCall::Edit { thread, locked, archived } = *c {
            if thread == t.id {
                t.locked = locked;
                t.archived = archived;
            }
        }
    }
}

#[test]
fn reopen_locked_archived_thread_with_open_ticket() {
    let prefixes = default_thread_prefixes();
    let tickets = vec![ticket(7, "Bug with login [1234567890]")];
    let open = open_thread_ids(&linked_tickets(&tickets));
    let t = thread(1234567890, "[BUG] login", true, true);
    let c = plan_correction(&t, &prefixes, &open, None);
    assert_eq!(c, Correction::Reopen);
    assert_eq!(
        corrective_calls(t.id, c),
        vec![
            ThreadCall::Notify { thread: 1234567890, notice: Notice::Reopened },
            ThreadCall::Edit { thread: 1234567890, locked: false, archived: false },
        ]
    );
}

#[test]
fn reopen_when_only_locked_or_only_archived() {
    let prefixes = default_thread_prefixes();
    let open = vec![10u64];
    assert_eq!(plan_correction(&thread(10, "x", true, false), &prefixes, &open, None), Correction::Reopen);
    assert_eq!(plan_correction(&thread(10, "x", false, true), &prefixes, &open, None), Correction::Reopen);
}

#[test]
fn close_thread_whose_discovered_ticket_is_closed() {
    let prefixes = default_thread_prefixes();
    let open: Vec<u64> = vec![];
    let t = thread(99, "[FEATURE] dark mode", false, false);
    assert!(awaits_discovery(&t, &prefixes, &open));
    let c = plan_correction(&t, &prefixes, &open, Some(TicketState::Closed));
    assert_eq!(c, Correction::Close);
    assert_eq!(
        corrective_calls(t.id, c),
        vec![
            ThreadCall::Notify { thread: 99, notice: Notice::Closed },
            ThreadCall::Edit { thread: 99, locked: true, archived: true },
        ]
    );
}

#[test]
fn no_close_while_discovered_ticket_is_open_or_unknown() {
    let prefixes = default_thread_prefixes();
    let open: Vec<u64> = vec![];
    let t = thread(99, "[QUESTION] how?", false, false);
    assert_eq!(plan_correction(&t, &prefixes, &open, Some(TicketState::Open)), Correction::Nothing);
    assert_eq!(plan_correction(&t, &prefixes, &open, None), Correction::Nothing);
}

#[test]
fn no_op_without_prefix() {
    let prefixes = default_thread_prefixes();
    let open: Vec<u64> = vec![1];
    let t = thread(99, "General chat", false, false);
    assert!(!awaits_discovery(&t, &prefixes, &open));
    let c = plan_correction(&t, &prefixes, &open, Some(TicketState::Closed));
    assert_eq!(c, Correction::Nothing);
    assert!(corrective_calls(t.id, c).is_empty());
}

#[test]
fn no_op_when_already_in_target_state() {
    let prefixes = default_thread_prefixes();
    let open = vec![5u64];
    assert_eq!(plan_correction(&thread(5, "[BUG] a", false, false), &prefixes, &open, None), Correction::Nothing);
    let closed = thread(6, "[BUG] b", true, true);
    assert_eq!(plan_correction(&closed, &prefixes, &open, Some(TicketState::Closed)), Correction::Nothing);
    let locked = thread(6, "[BUG] b", true, false);
    assert_eq!(plan_correction(&locked, &prefixes, &open, Some(TicketState::Closed)), Correction::Nothing);
}

#[test]
fn no_op_for_duplicate_open_tickets() {
    let prefixes = default_thread_prefixes();
    let tickets = vec![ticket(1, "A [77]"), ticket(2, "B [77]")];
    let open = open_thread_ids(&linked_tickets(&tickets));
    assert_eq!(count_id(&open, 77), 2);
    let t = thread(77, "[BUG] dup", true, true);
    let c = plan_correction(&t, &prefixes, &open, Some(TicketState::Closed));
    assert_eq!(c, Correction::Nothing);
    assert!(corrective_calls(77, c).is_empty());
}

#[test]
fn second_pass_makes_no_call() {
    let prefixes = default_thread_prefixes();
    let open = vec![1u64];
    let cases = vec![
        (thread(1, "[BUG] a", true, true), None),
        (thread(2, "[BUG] b", false, false), Some(TicketState::Closed)),
        (thread(3, "plain", false, false), Some(TicketState::Closed)),
        (thread(1, "[BUG] a", false, false), None),
    ];
    for (mut t, linked) in cases {
        let first = corrective_calls(t.id, plan_correction(&t, &prefixes, &open, linked));
        apply(&mut t, &first);
        let second = corrective_calls(t.id, plan_correction(&t, &prefixes, &open, linked));
        assert!(second.is_empty(), "thread {}", t.id);
    }
}

#[test]
fn linked_tickets_keep_only_decodable_titles() {
    let tickets = vec![
        ticket(1, "First [11]"),
        ticket(2, "No id"),
        ticket(3, &format!("Third {}", encode(33))),
        ticket(4, "[not-a-number]"),
    ];
    let linked = linked_tickets(&tickets);
    assert_eq!(
        linked,
        vec![
            LinkedTicket { number: 1, thread_id: 11 },
            LinkedTicket { number: 3, thread_id: 33 },
        ]
    );
    assert_eq!(open_thread_ids(&linked), vec![11, 33]);
}

#[test]
fn forum_and_prefix_membership() {
    let prefixes = default_thread_prefixes();
    assert!(has_managed_prefix("[FEEDBACK] nice", &prefixes));
    assert!(!has_managed_prefix("nice [FEEDBACK]", &prefixes));
    assert!(!has_managed_prefix("[bug] lower case", &prefixes));
    let mut t = thread(1, "[BUG] x", false, false);
    assert!(in_forum(&t, FORUM));
    assert!(!in_forum(&t, FORUM + 1));
    t.parent_id = None;
    assert!(!in_forum(&t, FORUM));
    assert!(contains_id(&vec![3, 4], 4));
    assert!(!contains_id(&vec![3, 4], 5));
}

#[test]
fn notice_texts() {
    assert_eq!(Notice::Reopened.text(), "🔓 Issue reopened on GitHub");
    assert_eq!(Notice::Closed.text(), "🔒 Issue closed or merged on GitHub");
}
