//! Fixed markers and limits shared by the bot and the synchroniser.
use vstd::prelude::*;

verus! {

/// Embed colour of a success notification (green).
pub const COLOR_SUCCESS: u32 = 0x238636;

/// How many recent messages of a thread are scanned for a ticket link.
pub const DISCORD_MESSAGE_FETCH_LIMIT: u8 = 50;

/// How many messages of a thread are fetched to build a ticket body.
pub const GITHUB_THREAD_CONTENT_LIMIT: u8 = 10;

pub const PREFIX_BUG: &'static str = "[BUG]";
pub const PREFIX_FEATURE: &'static str = "[FEATURE]";
pub const PREFIX_QUESTION: &'static str = "[QUESTION]";
pub const PREFIX_FEEDBACK: &'static str = "[FEEDBACK]";

pub const LABEL_BUG: &'static str = "bug";
pub const LABEL_FEATURE: &'static str = "enhancement";
pub const LABEL_QUESTION: &'static str = "question";
pub const LABEL_FEEDBACK: &'static str = "feedback";

/// Embed title of the notification posted when a ticket is created.
pub const MSG_ISSUE_CREATED: &'static str = "GitHub Issue Created";
/// Embed title of the notification posted when a ticket is updated.
pub const MSG_ISSUE_UPDATED: &'static str = "GitHub Issue Updated";
/// Message posted into a thread before it is locked and archived.
pub const MSG_ISSUE_CLOSED: &'static str = "🔒 Issue closed or merged on GitHub";
/// Message posted into a thread before it is unlocked and unarchived.
pub const MSG_ISSUE_REOPENED: &'static str = "🔓 Issue reopened on GitHub";

/// Where a ticket's canonical URL begins.
pub const TRACKER_URL_PREFIX: &'static str = "https://github.com/";

pub const DEFAULT_CONFIG_PATH: &'static str = "config.toml";

} // verus!
