use cardibot::constants::{MSG_ISSUE_CREATED, MSG_ISSUE_UPDATED};
use cardibot::discovery::{
    discover_linked_ticket, find_ticket_url, ticket_number_from_url, url_in, EmbedRecord,
    MessageRecord,
};

fn embed(title: &str, description: &str) -> EmbedRecord {
    EmbedRecord { title: Some(title.to_string()), description: Some(description.to_string()) }
}

fn bot(embeds: Vec<EmbedRecord>) -> MessageRecord {
    MessageRecord { author_is_bot: true, embeds }
}

#[test]
fn discovers_ticket_from_creation_notice() {
    let messages = vec![
        MessageRecord { author_is_bot: false, embeds: vec![] },
        bot(vec![embed(MSG_ISSUE_CREATED, "**Issue**: https://github.com/acme/app/issues/42")]),
    ];
    assert_eq!(
        find_ticket_url(&messages),
        Some("https://github.com/acme/app/issues/42".to_string())
    );
    assert_eq!(discover_linked_ticket(&messages), Some(42));
}

#[test]
fn discovers_ticket_from_update_notice_up_to_white_space() {
    let messages = vec![bot(vec![embed(
        MSG_ISSUE_UPDATED,
        "**Issue**: https://github.com/acme/app/issues/7\nmore text",
    )])];
    assert_eq!(discover_linked_ticket(&messages), Some(7));
}

#[test]
fn ignores_other_authors_and_titles() {
    let human = MessageRecord {
        author_is_bot: false,
        embeds: vec![embed(MSG_ISSUE_CREATED, "https://github.com/a/b/issues/1")],
    };
    let other = bot(vec![embed("Something else", "https://github.com/a/b/issues/2")]);
    let no_desc = bot(vec![EmbedRecord { title: Some(MSG_ISSUE_CREATED.to_string()), description: None }]);
    let no_title = bot(vec![EmbedRecord { title: None, description: Some("https://github.com/a/b/issues/3".to_string()) }]);
    assert_eq!(discover_linked_ticket(&vec![human, other, no_desc, no_title]), None);
    assert_eq!(discover_linked_ticket(&vec![]), None);
}

#[test]
fn last_message_in_window_wins_and_first_embed_within_it() {
    let messages = vec![
        bot(vec![embed(MSG_ISSUE_UPDATED, "https://github.com/a/b/issues/5")]),
        bot(vec![
            embed("Other", "https://github.com/a/b/issues/8"),
            embed(MSG_ISSUE_CREATED, "https://github.com/a/b/issues/3"),
            embed(MSG_ISSUE_CREATED, "https://github.com/a/b/issues/4"),
        ]),
        bot(vec![embed(MSG_ISSUE_CREATED, "no link here")]),
    ];
    assert_eq!(discover_linked_ticket(&messages), Some(3));
}

#[test]
fn malformed_url_gives_no_ticket() {
    let messages = vec![bot(vec![embed(MSG_ISSUE_CREATED, "https://github.com/a/b/issues/")])];
    assert_eq!(find_ticket_url(&messages), Some("https://github.com/a/b/issues/".to_string()));
    assert_eq!(discover_linked_ticket(&messages), None);
}

#[test]
fn ticket_number_is_last_path_segment() {
    assert_eq!(ticket_number_from_url("https://github.com/a/b/issues/123"), Some(123));
    assert_eq!(ticket_number_from_url("https://github.com/a/b/pull/+9"), Some(9));
    assert_eq!(ticket_number_from_url("https://github.com/a/b/issues/12x"), None);
    assert_eq!(ticket_number_from_url("77"), Some(77));
}

#[test]
fn url_stops_at_unicode_white_space() {
    assert_eq!(
        url_in("see https://github.com/a/b/issues/9\u{00A0}now"),
        Some("https://github.com/a/b/issues/9".to_string())
    );
    assert_eq!(url_in("no url"), None);
}
