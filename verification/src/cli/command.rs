//! The command line as the tool understands it.

use vstd::prelude::*;

verus! {

/// The arguments of one invocation.
#[derive(Debug, Clone, PartialEq, Eq)]
pub struct GimCli {
    pub command: Option<GimCommands>,
    /// The commit message title.
    pub title: Option<String>,
    /// Add the changes to the stage before anything else.
    pub auto_add: bool,
    /// Amend the last commit.
    pub overwrite: bool,
    /// Show verbose output.
    pub verbose: bool,
}

/// The subcommands.
#[derive(Debug, Clone, PartialEq, Eq)]
pub enum GimCommands {
    /// Check for updates and install the latest version.
    Update {
        /// Install even if the current version is the latest.
        force: bool,
        /// Set how often the reminder may appear.
        max: Option<usize>,
        /// Set the number of days between two reminders.
        interval: Option<usize>,
    },
    /// Manage the prompt files; show their content when no option is given.
    Prompt {
        /// Edit the prompt files.
        edit: bool,
        /// Which prompt to edit.
        prompt: Option<String>,
        /// The editor to use.
        editor: Option<String>,
        /// Reset the prompts to the built-in texts.
        reset: bool,
    },
    /// Set up how the model is reached.
    Ai {
        model: Option<String>,
        apikey: Option<String>,
        url: Option<String>,
        language: Option<String>,
    },
    /// Set up the tool itself.
    Config {
        /// Ceiling on the number of lines of a change description.
        lines_limit: Option<usize>,
        /// Print where the configuration file lies.
        show_location: bool,
    },
}

} // verus!
