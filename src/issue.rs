//! The text of tickets created from threads, and of the tracker queries.
use vstd::prelude::*;
use crate::codec::{encode, encode_spec};
use crate::config::texts_of;
use crate::constants::{
    LABEL_BUG, LABEL_FEATURE, LABEL_FEEDBACK, LABEL_QUESTION, MSG_ISSUE_CREATED,
    MSG_ISSUE_UPDATED, PREFIX_BUG, PREFIX_FEATURE, PREFIX_FEEDBACK, PREFIX_QUESTION,
};
use crate::decimal::{decimal_of, push_decimal};
use crate::reconcile::TicketState;
use crate::text::{contains, contains_text};

verus! {

/// A chat message as a ticket body quotes it.
#[derive(Clone, Debug)]
pub struct AuthoredMessage {
    pub author: String,
    pub content: String,
}

/// How many of the fetched messages a ticket body quotes.
pub const QUOTED_MESSAGES: usize = 5;

/// `label` where `title` holds `prefix`, else nothing.
pub open spec fn label_if(title: Seq<char>, prefix: Seq<char>, label: Seq<char>) -> Seq<
    Seq<char>,
> {
    if contains_text(title, prefix) {
        seq![label]
    } else {
        Seq::empty()
    }
}

/// The tracker labels that a thread title asks for, in a fixed order.
pub open spec fn labels_spec(title: Seq<char>) -> Seq<Seq<char>> {
    label_if(title, PREFIX_BUG@, LABEL_BUG@) + label_if(title, PREFIX_FEATURE@, LABEL_FEATURE@)
        + label_if(title, PREFIX_QUESTION@, LABEL_QUESTION@) + label_if(
        title,
        PREFIX_FEEDBACK@,
        LABEL_FEEDBACK@,
    )
}

/// One quoted message: `**@author**: content`.
pub open spec fn quote_spec(m: AuthoredMessage) -> Seq<char> {
    "**@"@ + m.author@ + "**: "@ + m.content@
}

/// The quotes of `ms[len-1]`, `ms[len-2]`, ... down to `ms[len-k]`, separated by blank lines.
pub open spec fn quotes_spec(ms: Seq<AuthoredMessage>, k: int) -> Seq<char>
    decreases k,
{
    if k <= 0 || k > ms.len() {
        Seq::empty()
    } else if k == 1 {
        quote_spec(ms.last())
    } else {
        quotes_spec(ms, k - 1) + "\n\n"@ + quote_spec(ms[ms.len() - k])
    }
}

/// A ticket body's quotation of a thread: its last `QUOTED_MESSAGES` fetched
/// messages, from the last one back.
pub open spec fn thread_content_spec(ms: Seq<AuthoredMessage>) -> Seq<char> {
    quotes_spec(
        ms,
        if ms.len() < QUOTED_MESSAGES {
            ms.len() as int
        } else {
            QUOTED_MESSAGES as int
        },
    )
}

/// The labels that a thread title asks for.
pub fn labels_for_title(title: &str) -> (r: Vec<String>)
    ensures
        texts_of(r@) == labels_spec(title@),
{
    let mut r: Vec<String> = Vec::new();
    if contains(title, PREFIX_BUG) {
        r.push(String::from_str(LABEL_BUG));
    }
    let ghost r1 = r@;
    assert(texts_of(r1) =~= label_if(title@, PREFIX_BUG@, LABEL_BUG@));
    if contains(title, PREFIX_FEATURE) {
        r.push(String::from_str(LABEL_FEATURE));
    }
    let ghost r2 = r@;
    assert(texts_of(r2) =~= texts_of(r1) + label_if(title@, PREFIX_FEATURE@, LABEL_FEATURE@));
    if contains(title, PREFIX_QUESTION) {
        r.push(String::from_str(LABEL_QUESTION));
    }
    let ghost r3 = r@;
    assert(texts_of(r3) =~= texts_of(r2) + label_if(title@, PREFIX_QUESTION@, LABEL_QUESTION@));
    if contains(title, PREFIX_FEEDBACK) {
        r.push(String::from_str(LABEL_FEEDBACK));
    }
    assert(texts_of(r@) =~= texts_of(r3) + label_if(title@, PREFIX_FEEDBACK@, LABEL_FEEDBACK@));
    r
}

/// A ticket's title: the thread's name, a space, and the encoded thread identifier.
pub fn issue_title(thread_name: &str, thread_id: u64) -> (r: String)
    ensures
        r@ == thread_name@ + " "@ + encode_spec(thread_id),
{
    let mut s = String::from_str(thread_name);
    s.append(" ");
    let e = encode(thread_id);
    s.append(e.as_str());
    s
}

/// The web address of a thread.
pub fn thread_url(guild_id: u64, thread_id: u64) -> (r: String)
    ensures
        r@ == "https://discord.com/channels/"@ + decimal_of(guild_id as nat) + "/"@ + decimal_of(
            thread_id as nat,
        ),
{
    let mut s = String::from_str("https://discord.com/channels/");
    push_decimal(&mut s, guild_id);
    s.append("/");
    push_decimal(&mut s, thread_id);
    s
}

/// A ticket's body: the quoted thread, then where it came from and who opened it.
pub fn issue_body(content: &str, discord_url: &str, owner_name: &str) -> (r: String)
    ensures
        r@ == content@ + "\n\n---\n**Discord Thread**: "@ + discord_url@ + "\n**Created by**: "@
            + owner_name@,
{
    let mut s = String::from_str(content);
    s.append("\n\n---\n**Discord Thread**: ");
    s.append(discord_url);
    s.append("\n**Created by**: ");
    s.append(owner_name);
    s
}

/// The search for a ticket already created for a thread.
pub fn existing_issue_query(thread_id: u64, owner: &str, repo: &str) -> (r: String)
    ensures
        r@ == encode_spec(thread_id) + " in:title repo:"@ + owner@ + "/"@ + repo@ + " is:issue"@,
{
    let mut s = encode(thread_id);
    s.append(" in:title repo:");
    s.append(owner);
    s.append("/");
    s.append(repo);
    s.append(" is:issue");
    s
}

/// The search for a repository's tickets in one lifecycle state.
pub fn ticket_search_query(owner: &str, repo: &str, state: TicketState) -> (r: String)
    ensures
        r@ == "repo:"@ + owner@ + "/"@ + repo@ + " is:"@ + (match state {
            TicketState::Open => "open"@,
            TicketState::Closed => "closed"@,
        }) + " in:title"@,
{
    let mut s = String::from_str("repo:");
    s.append(owner);
    s.append("/");
    s.append(repo);
    s.append(" is:");
    match state {
        TicketState::Open => s.append("open"),
        TicketState::Closed => s.append("closed"),
    }
    s.append(" in:title");
    s
}

/// The title of the notification posted once a ticket is created or updated.
pub fn notification_title(was_updated: bool) -> (r: &'static str)
    ensures
        r@ == (if was_updated {
            MSG_ISSUE_UPDATED@
        } else {
            MSG_ISSUE_CREATED@
        }),
{
    if was_updated {
        MSG_ISSUE_UPDATED
    } else {
        MSG_ISSUE_CREATED
    }
}

/// One quoted message.
fn quote(m: &AuthoredMessage) -> (r: String)
    ensures
        r@ == quote_spec(*m),
{
    let mut s = String::from_str("**@");
    s.append(m.author.as_str());
    s.append("**: ");
    s.append(m.content.as_str());
    s
}

/// The quotation of a thread that opens a ticket's body.
pub fn thread_content(messages: &Vec<AuthoredMessage>) -> (r: String)
    ensures
        r@ == thread_content_spec(messages@),
{
    let n = messages.len();
    let k: usize = if n < QUOTED_MESSAGES {
        n
    } else {
        QUOTED_MESSAGES
    };
    let mut s = String::new();
    let mut j: usize = 0;
    while j < k
        invariant
            j <= k <= n,
            n == messages@.len(),
            k == (if n < QUOTED_MESSAGES {
                n
            } else {
                QUOTED_MESSAGES
            }),
            s@ == quotes_spec(messages@, j as int),
        decreases k - j,
    {
        if j > 0 {
            s.append("\n\n");
        }
        let q = quote(&messages[n - 1 - j]);
        s.append(q.as_str());
        j = j + 1;
        proof {
            if j == 1 {
                assert(messages@.last() == messages@[n - 1]);
                assert(s@ =~= quotes_spec(messages@, 1));
            } else {
                assert(s@ =~= quotes_spec(messages@, j as int));
            }
        }
    }
    s
}

} // verus!
