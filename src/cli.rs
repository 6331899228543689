//! The command-line interface: which task a run of the program performs.
use vstd::prelude::*;

verus! {

/// Parsed command line.
pub struct Cli {
    pub command: Commands,
}

/// The tasks the program can run.
pub enum Commands {
    /// Run the bot and the periodic synchronisation.
    Run,
    /// Print the servers, forums and roles the bot can see, then exit.
    CheckDiscord,
    /// Load the configuration file and report on it.
    ValidateConfig,
    /// Post the feedback instructions to a channel.
    PostFeedback { channel: String },
    /// List the tickets that carry thread identifiers.
    DebugSync,
    /// Archive managed threads that are locked but still active.
    ArchiveLockedThreads,
    /// Compare open tickets with the state of their threads.
    AuditSync,
}

} // verus!
