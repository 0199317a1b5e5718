//! The command line: subcommands and their arguments.

use vstd::prelude::*;

verus! {

/// Parsed command-line arguments.
pub struct Cli {
    pub command: Option<Commands>,
    /// Skip the startup banner animation.
    pub no_banner: bool,
}

/// The subcommands.
pub enum Commands {
    /// Read a verse, range or chapter ("John 3:16", "Genesis 1", "Ps 23:1-6").
    Read { reference: Vec<String>, translation: String },
    /// Search the Bible for a phrase or keyword.
    Search { query: Vec<String>, translation: String },
    /// Display a random verse.
    Random { translation: String },
    /// Show today's verse of the day.
    Today { translation: String },
    /// Replay the startup animation.
    Intro,
    /// Update to the latest version.
    Update { check: bool },
}

} // verus!
