use cardibot::auth::{bearer, GitHubApp};
use cardibot::issue::{
    existing_issue_query, issue_body, issue_title, labels_for_title, notification_title,
    thread_content, thread_url, ticket_search_query, AuthoredMessage,
};
use cardibot::reconcile::TicketState;

#[test]
fn labels_follow_title_prefixes() {
    assert_eq!(labels_for_title("[BUG] crash"), vec!["bug"]);
    assert_eq!(labels_for_title("[FEATURE][QUESTION] x"), vec!["enhancement", "question"]);
    assert_eq!(labels_for_title("thanks [FEEDBACK]"), vec!["feedback"]);
    assert!(labels_for_title("plain").is_empty());
}

#[test]
fn ticket_title_and_body() {
    assert_eq!(issue_title("[BUG] login", 1234567890), "[BUG] login [1234567890]");
    let url = thread_url(11, 22);
    assert_eq!(url, "https://discord.com/channels/11/22");
    assert_eq!(
        issue_body("text", &url, "alice"),
        "text\n\n---\n**Discord Thread**: https://discord.com/channels/11/22\n**Created by**: alice"
    );
}

#[test]
fn tracker_queries() {
    assert_eq!(existing_issue_query(5, "acme", "app"), "[5] in:title repo:acme/app is:issue");
    assert_eq!(ticket_search_query("acme", "app", TicketState::Open), "repo:acme/app is:open in:title");
    assert_eq!(ticket_search_query("acme", "app", TicketState::Closed), "repo:acme/app is:closed in:title");
}

#[test]
fn notification_titles() {
    assert_eq!(notification_title(false), "GitHub Issue Created");
    assert_eq!(notification_title(true), "GitHub Issue Updated");
}

fn msg(author: &str, content: &str) -> AuthoredMessage {
    AuthoredMessage { author: author.to_string(), content: content.to_string() }
}

#[test]
fn thread_content_quotes_from_the_end() {
    assert_eq!(thread_content(&vec![]), "");
    assert_eq!(thread_content(&vec![msg("a", "hi")]), "**@a**: hi");
    let ms: Vec<AuthoredMessage> = (0..7).map(|i| msg(&format!("u{i}"), &format!("m{i}"))).collect();
    assert_eq!(
        thread_content(&ms),
        "**@u6**: m6\n\n**@u5**: m5\n\n**@u4**: m4\n\n**@u3**: m3\n\n**@u2**: m2"
    );
}

#[test]
fn app_credentials() {
    let app = GitHubApp::with_private_key("123".to_string(), "KEY".to_string(), 77);
    assert_eq!(app.app_id(), "123");
    assert_eq!(app.private_key(), "KEY");
    assert_eq!(app.installation_id(), 77);
    let c = app.jwt_claims(1_000_000);
    assert_eq!(c.iat, 999_940);
    assert_eq!(c.exp, 1_000_600);
    assert_eq!(c.iss, "123");
    assert_eq!(
        app.installation_token_url(),
        "https://api.github.com/app/installations/77/access_tokens"
    );
    assert_eq!(bearer("tok"), "Bearer tok");
}
