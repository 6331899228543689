//! Finding the ticket that a thread is linked to, from the notifications
//! that the bot posted into the thread earlier.
use vstd::prelude::*;
use crate::constants::{MSG_ISSUE_CREATED, MSG_ISSUE_UPDATED, TRACKER_URL_PREFIX};
use crate::decimal::{parse_u64, parse_u64_spec};
use crate::text::{
    find, find_white_space, first_occurrence, lemma_first_occurrence_from,
    lemma_white_space_from, opt_text, same_text, white_space_from,
};

verus! {

/// A structured payload of a chat message: its title and body, where present.
#[derive(Clone, Debug)]
pub struct EmbedRecord {
    pub title: Option<String>,
    pub description: Option<String>,
}

/// A chat message as far as discovery reads it.
#[derive(Clone, Debug)]
pub struct MessageRecord {
    pub author_is_bot: bool,
    pub embeds: Vec<EmbedRecord>,
}

/// Whether an embed title marks a "ticket created" or "ticket updated" notification.
pub open spec fn is_link_title(t: Seq<char>) -> bool {
    t == MSG_ISSUE_CREATED@ || t == MSG_ISSUE_UPDATED@
}

/// The first tracker URL in a text: from the URL prefix up to the next white space.
pub open spec fn url_in_text(d: Seq<char>) -> Option<Seq<char>> {
    match first_occurrence(d, TRACKER_URL_PREFIX@) {
        None => None,
        Some(k) => Some(d.subrange(k, white_space_from(d, k))),
    }
}

/// The ticket URL that an embed carries, if it is a link notification.
pub open spec fn embed_link(e: EmbedRecord) -> Option<Seq<char>> {
    if e.title is Some && is_link_title(e.title->0@) && e.description is Some {
        url_in_text(e.description->0@)
    } else {
        None
    }
}

/// The link of the first embed at or after `i` that carries one.
pub open spec fn first_embed_link_from(es: Seq<EmbedRecord>, i: int) -> Option<Seq<char>>
    decreases es.len() - i,
{
    if i < 0 || i >= es.len() {
        None
    } else if embed_link(es[i]) is Some {
        embed_link(es[i])
    } else {
        first_embed_link_from(es, i + 1)
    }
}

/// The ticket URL that a message carries: only the bot's messages count.
pub open spec fn message_link(m: MessageRecord) -> Option<Seq<char>> {
    if m.author_is_bot {
        first_embed_link_from(m.embeds@, 0)
    } else {
        None
    }
}

/// The ticket URL found in a window of messages: that of the last message
/// in the window that carries one.
pub open spec fn discovered_link(ms: Seq<MessageRecord>) -> Option<Seq<char>>
    decreases ms.len(),
{
    if ms.len() == 0 {
        None
    } else if message_link(ms.last()) is Some {
        message_link(ms.last())
    } else {
        discovered_link(ms.drop_last())
    }
}

/// The index just after the last `/` before `j`, or 0.
pub open spec fn segment_start(u: Seq<char>, j: int) -> int
    decreases j,
{
    if j <= 0 || j > u.len() {
        0
    } else if u[j - 1] == '/' {
        j
    } else {
        segment_start(u, j - 1)
    }
}

/// The text after the last `/` of a URL (all of it where there is none).
pub open spec fn last_segment(u: Seq<char>) -> Seq<char> {
    u.subrange(segment_start(u, u.len() as int), u.len() as int)
}

/// The ticket number at the end of a ticket URL.
pub open spec fn ticket_number_spec(u: Seq<char>) -> Option<u64> {
    parse_u64_spec(last_segment(u))
}

/// The ticket that a window of messages links the thread to.
pub open spec fn discovered_ticket(ms: Seq<MessageRecord>) -> Option<u64> {
    match discovered_link(ms) {
        None => None,
        Some(u) => ticket_number_spec(u),
    }
}

proof fn lemma_segment_start(u: Seq<char>, j: int)
    requires
        0 <= j <= u.len(),
    ensures
        0 <= segment_start(u, j) <= j,
    decreases j,
{
    if j > 0 && u[j - 1] != '/' {
        lemma_segment_start(u, j - 1);
    }
}

/// The first tracker URL in `d`.
pub fn url_in(d: &str) -> (r: Option<String>)
    ensures
        opt_text(r) == url_in_text(d@),
{
    match find(d, TRACKER_URL_PREFIX) {
        None => None,
        Some(k) => {
            proof {
                lemma_first_occurrence_from(d@, TRACKER_URL_PREFIX@, 0);
                lemma_white_space_from(d@, k as int);
            }
            let e = find_white_space(d, k);
            Some(String::from_str(d.substring_char(k, e)))
        },
    }
}

/// The ticket URL of an embed that is a link notification.
fn embed_link_exec(e: &EmbedRecord) -> (r: Option<String>)
    ensures
        opt_text(r) == embed_link(*e),
{
    match &e.title {
        None => None,
        Some(t) => {
            if !(same_text(t.as_str(), MSG_ISSUE_CREATED) || same_text(
                t.as_str(),
                MSG_ISSUE_UPDATED,
            )) {
                return None;
            }
            match &e.description {
                None => None,
                Some(d) => url_in(d.as_str()),
            }
        },
    }
}

/// The ticket URL that a message carries.
fn message_link_exec(m: &MessageRecord) -> (r: Option<String>)
    ensures
        opt_text(r) == message_link(*m),
{
    if !m.author_is_bot {
        return None;
    }
    let n = m.embeds.len();
    let mut i: usize = 0;
    while i < n
        invariant
            i <= n,
            n == m.embeds@.len(),
            m.author_is_bot,
            first_embed_link_from(m.embeds@, 0) == first_embed_link_from(m.embeds@, i as int),
        decreases n - i,
    {
        let u = embed_link_exec(&m.embeds[i]);
        if u.is_some() {
            return u;
        }
        i = i + 1;
    }
    None
}

/// The ticket URL found in a window of messages (see `discovered_link`).
pub fn find_ticket_url(messages: &Vec<MessageRecord>) -> (r: Option<String>)
    ensures
        opt_text(r) == discovered_link(messages@),
{
    let mut i: usize = messages.len();
    assert(messages@.subrange(0, i as int) =~= messages@);
    while i > 0
        invariant
            i <= messages@.len(),
            discovered_link(messages@) == discovered_link(messages@.subrange(0, i as int)),
        decreases i,
    {
        let ghost w = messages@.subrange(0, i as int);
        assert(w.last() == messages@[i - 1]);
        assert(w.drop_last() =~= messages@.subrange(0, i - 1));
        let u = message_link_exec(&messages[i - 1]);
        if u.is_some() {
            return u;
        }
        i = i - 1;
    }
    assert(messages@.subrange(0, 0) =~= Seq::<MessageRecord>::empty());
    None
}

/// The ticket number at the end of a ticket URL.
pub fn ticket_number_from_url(url: &str) -> (r: Option<u64>)
    ensures
        r == ticket_number_spec(url@),
{
    let n = url.unicode_len();
    let mut j: usize = n;
    while j > 0 && url.get_char(j - 1) != '/'
        invariant
            j <= n,
            n == url@.len(),
            segment_start(url@, n as int) == segment_start(url@, j as int),
        decreases j,
    {
        j = j - 1;
    }
    proof {
        lemma_segment_start(url@, j as int);
    }
    parse_u64(url.substring_char(j, n))
}

/// The ticket that a window of recent messages links the thread to.
pub fn discover_linked_ticket(messages: &Vec<MessageRecord>) -> (r: Option<u64>)
    ensures
        r == discovered_ticket(messages@),
{
    match find_ticket_url(messages) {
        None => None,
        Some(u) => ticket_number_from_url(u.as_str()),
    }
}

} // verus!
