//! Configuration: the watched projects and the synchronisation settings.
use vstd::prelude::*;
use crate::constants::{PREFIX_BUG, PREFIX_FEATURE, PREFIX_FEEDBACK, PREFIX_QUESTION};
use crate::decimal::{decimal_of, parse_u64, parse_u64_spec, u64_to_decimal};
use crate::reconcile::contains_id;
use crate::text::same_text;

verus! {

/// The whole configuration file.
#[derive(Debug)]
pub struct Config {
    pub log_level: Option<String>,
    pub projects: Vec<Project>,
    pub sync: Option<SyncConfig>,
}

/// Settings of the periodic synchronisation.
#[derive(Clone, Debug)]
pub struct SyncConfig {
    pub enabled: bool,
    pub interval_seconds: u64,
    /// Title prefixes that mark a thread as managed.
    pub thread_prefixes: Vec<String>,
}

/// One forum bridged to one repository.
#[derive(Clone, Debug)]
pub struct Project {
    pub name: Option<String>,
    pub discord_guild_id: String,
    pub discord_forum_id: String,
    pub github_owner: String,
    pub github_repo: String,
    pub allowed_role_id: Option<String>,
}

/// Why a project's configuration cannot be used.
#[derive(Clone, Copy, Debug, PartialEq, Eq, Structural)]
pub enum ConfigError {
    InvalidGuildId,
    InvalidForumId,
    InvalidRoleId,
    /// Synchronisation is on with an interval of zero seconds.
    InvalidInterval,
}

pub const DEFAULT_SYNC_INTERVAL: u64 = 60;

/// The prefixes that mark a managed thread when the configuration names none.
pub open spec fn default_prefix_texts() -> Seq<Seq<char>> {
    seq![PREFIX_BUG@, PREFIX_FEATURE@, PREFIX_QUESTION@, PREFIX_FEEDBACK@]
}

pub open spec fn texts_of(v: Seq<String>) -> Seq<Seq<char>> {
    v.map_values(|s: String| s@)
}

/// A chat identifier read from configuration text: a decimal number that is not 0.
pub open spec fn snowflake_spec(s: Seq<char>) -> Option<u64> {
    match parse_u64_spec(s) {
        Some(v) => if v != 0 {
            Some(v)
        } else {
            None
        },
        None => None,
    }
}

/// Whether a project is configured for the given guild and forum, compared as
/// decimal text.
pub open spec fn project_matches(p: Project, guild_id: u64, channel_id: u64) -> bool {
    p.discord_guild_id@ == decimal_of(guild_id as nat) && p.discord_forum_id@ == decimal_of(
        channel_id as nat,
    )
}

/// The index of the first project at or after `i` configured for the guild and forum.
pub open spec fn project_index_from(ps: Seq<Project>, guild_id: u64, channel_id: u64, i: int) -> Option<
    int,
>
    decreases ps.len() - i,
{
    if i < 0 || i >= ps.len() {
        None
    } else if project_matches(ps[i], guild_id, channel_id) {
        Some(i)
    } else {
        project_index_from(ps, guild_id, channel_id, i + 1)
    }
}

/// Synchronisation runs unless the configuration turns it off.
pub fn default_sync_enabled() -> (r: bool)
    ensures
        r,
{
    true
}

/// Seconds between two synchronisation cycles unless configured.
pub fn default_sync_interval() -> (r: u64)
    ensures
        r == DEFAULT_SYNC_INTERVAL,
{
    DEFAULT_SYNC_INTERVAL
}

/// The managed-thread prefixes unless configured: bug, feature, question, feedback.
pub fn default_thread_prefixes() -> (r: Vec<String>)
    ensures
        texts_of(r@) == default_prefix_texts(),
{
    let r = vec![
        String::from_str(PREFIX_BUG),
        String::from_str(PREFIX_FEATURE),
        String::from_str(PREFIX_QUESTION),
        String::from_str(PREFIX_FEEDBACK),
    ];
    assert(texts_of(r@) =~= default_prefix_texts());
    r
}

/// A copy of a list of strings.
pub fn copy_strings(v: &Vec<String>) -> (r: Vec<String>)
    ensures
        r@ == v@,
{
    let mut r: Vec<String> = Vec::new();
    let mut i: usize = 0;
    while i < v.len()
        invariant
            i <= v@.len(),
            r@ == v@.subrange(0, i as int),
        decreases v@.len() - i,
    {
        r.push(v[i].clone());
        i = i + 1;
        assert(r@ =~= v@.subrange(0, i as int));
    }
    assert(v@.subrange(0, i as int) =~= v@);
    r
}

/// Reads a chat identifier from configuration text.
pub fn parse_snowflake(s: &str) -> (r: Option<u64>)
    ensures
        r == snowflake_spec(s@),
{
    match parse_u64(s) {
        Some(v) => if v != 0 {
            Some(v)
        } else {
            None
        },
        None => None,
    }
}

impl SyncConfig {
    /// The seconds between two cycles, or none where synchronisation is off.
    /// An interval of zero is refused: there is no such period.
    pub fn period_seconds(&self) -> (r: Result<Option<u64>, ConfigError>)
        ensures
            r == (if !self.enabled {
                Ok(None)
            } else if self.interval_seconds == 0 {
                Err(ConfigError::InvalidInterval)
            } else {
                Ok(Some(self.interval_seconds))
            }),
    {
        if !self.enabled {
            Ok(None)
        } else if self.interval_seconds == 0 {
            Err(ConfigError::InvalidInterval)
        } else {
            Ok(Some(self.interval_seconds))
        }
    }
}

impl Project {
    /// The guild's identifier.
    pub fn guild_id(&self) -> (r: Result<u64, ConfigError>)
        ensures
            r == (match snowflake_spec(self.discord_guild_id@) {
                Some(v) => Ok(v),
                None => Err(ConfigError::InvalidGuildId),
            }),
    {
        match parse_snowflake(self.discord_guild_id.as_str()) {
            Some(v) => Ok(v),
            None => Err(ConfigError::InvalidGuildId),
        }
    }

    /// The identifier of the watched forum.
    pub fn forum_id(&self) -> (r: Result<u64, ConfigError>)
        ensures
            r == (match snowflake_spec(self.discord_forum_id@) {
                Some(v) => Ok(v),
                None => Err(ConfigError::InvalidForumId),
            }),
    {
        match parse_snowflake(self.discord_forum_id.as_str()) {
            Some(v) => Ok(v),
            None => Err(ConfigError::InvalidForumId),
        }
    }

    /// Whether a member with the given roles may create tickets: any member
    /// where no role is required, else only one who holds it.
    pub fn member_may_create(&self, member_roles: &Vec<u64>) -> (r: Result<bool, ConfigError>)
        ensures
            self.allowed_role_id is None ==> r == Ok::<bool, ConfigError>(true),
            self.allowed_role_id matches Some(s) ==> (match parse_u64_spec(s@) {
                Some(role) => r == Ok::<bool, ConfigError>(member_roles@.contains(role)),
                None => r == Err::<bool, ConfigError>(ConfigError::InvalidRoleId),
            }),
    {
        match &self.allowed_role_id {
            None => Ok(true),
            Some(s) => match parse_u64(s.as_str()) {
                None => Err(ConfigError::InvalidRoleId),
                Some(role) => Ok(contains_id(member_roles, role)),
            },
        }
    }
}

impl Config {
    /// The first project configured for the given guild and forum.
    pub fn find_project(&self, guild_id: u64, channel_id: u64) -> (r: Option<&Project>)
        ensures
            r is None <== project_index_from(self.projects@, guild_id, channel_id, 0) is None,
            r matches Some(p) ==> project_index_from(self.projects@, guild_id, channel_id, 0)
                matches Some(k) && *p == self.projects@[k],
            r is Some <== project_index_from(self.projects@, guild_id, channel_id, 0) is Some,
    {
        let g = u64_to_decimal(guild_id);
        let c = u64_to_decimal(channel_id);
        let mut i: usize = 0;
        while i < self.projects.len()
            invariant
                i <= self.projects@.len(),
                g@ == decimal_of(guild_id as nat),
                c@ == decimal_of(channel_id as nat),
                project_index_from(self.projects@, guild_id, channel_id, 0) == project_index_from(
                    self.projects@,
                    guild_id,
                    channel_id,
                    i as int,
                ),
            decreases self.projects@.len() - i,
        {
            let p = &self.projects[i];
            if same_text(p.discord_guild_id.as_str(), g.as_str()) && same_text(
                p.discord_forum_id.as_str(),
                c.as_str(),
            ) {
                return Some(p);
            }
            i = i + 1;
        }
        None
    }

    /// The synchronisation settings in force: those configured, else the defaults.
    pub fn sync_config(&self) -> (r: SyncConfig)
        ensures
            self.sync matches Some(s) ==> r.enabled == s.enabled && r.interval_seconds
                == s.interval_seconds && r.thread_prefixes@ == s.thread_prefixes@,
            self.sync is None ==> r.enabled && r.interval_seconds == DEFAULT_SYNC_INTERVAL
                && texts_of(r.thread_prefixes@) == default_prefix_texts(),
    {
        match &self.sync {
            Some(s) => SyncConfig {
                enabled: s.enabled,
                interval_seconds: s.interval_seconds,
                thread_prefixes: copy_strings(&s.thread_prefixes),
            },
            None => SyncConfig {
                enabled: default_sync_enabled(),
                interval_seconds: default_sync_interval(),
                thread_prefixes: default_thread_prefixes(),
            },
        }
    }
}

} // verus!
