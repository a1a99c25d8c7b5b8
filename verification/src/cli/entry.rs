//! The entry of the tool: what one invocation is to do.

use crate::cli::ai_configer::{ValidatedAi, ValidatedAiView};
use crate::cli::command::{GimCli, GimCommands};
use crate::cli::http::{get_url_by_model, url_by_model};
use crate::cli::outcome::STAGED_NOTE;
use crate::cli::pipeline::CommitOptions;
use crate::text::{joined, texts_view};
use vstd::prelude::*;
use vstd::string::StringExecFns;

verus! {

/// The lines that report an abort: what went wrong, and the note on the
/// staged changes where there are any.
pub open spec fn error_lines(abort: Seq<char>, auto_add: bool) -> Seq<Seq<char>> {
    if auto_add {
        seq![abort, STAGED_NOTE@]
    } else {
        seq![abort]
    }
}

/// Writes the lines that report an abort.
pub fn ai_generating_error(abort: &str, auto_add: bool) -> (lines: Vec<String>)
    ensures
        texts_view(lines@) == error_lines(abort@, auto_add),
{
    let mut lines: Vec<String> = Vec::new();
    lines.push(String::from_str(abort));
    if auto_add {
        lines.push(String::from_str(STAGED_NOTE));
    }
    lines
}

/// How the address is shown where the configuration is printed: as it is
/// configured; but where none is configured and a model is, the default
/// address of the model's provider is named, and where the model has none
/// the user is to be warned.
pub open spec fn shown_url(ai: ValidatedAiView) -> (Seq<char>, bool) {
    if ai.url.len() == 0 && ai.model_name.len() > 0 {
        match url_by_model(ai.model_name) {
            Some(url) => ("(not configured. Will use default : "@ + url + ")"@, false),
            None => (ai.url, true),
        }
    } else {
        (ai.url, false)
    }
}

/// Writes the address as it is shown, and says whether the user is to be
/// warned that there is none.
pub fn show_url(ai: &ValidatedAi) -> (shown: (String, bool))
    ensures
        (shown.0@, shown.1) == shown_url(ai@),
{
    if ai.url.as_str().is_empty() && !ai.model_name.as_str().is_empty() {
        match get_url_by_model(ai.model_name.as_str()) {
            Some(url) => {
                let mut text = joined("(not configured. Will use default : ", url.as_str());
                text.append(")");
                (text, false)
            },
            None => (ai.url.clone(), true),
        }
    } else {
        (ai.url.clone(), false)
    }
}

/// What is to become of one of the two numbers of the reminder.
#[derive(Debug, Clone, Copy, PartialEq, Eq, Structural)]
pub enum CountChange {
    /// No number was given.
    Unchanged,
    /// Zero was given, which is refused: the number must be positive.
    Rejected,
    /// The number to set.
    To(u32),
    /// The number given is larger than any that can be set.
    OutOfRange,
}

/// What is to become of a number of the reminder, given what the command
/// line says.
pub open spec fn count_change(given: Option<usize>) -> CountChange {
    match given {
        None => CountChange::Unchanged,
        Some(number) => if number == 0 {
            CountChange::Rejected
        } else if number <= u32::MAX {
            CountChange::To(number as u32)
        } else {
            CountChange::OutOfRange
        },
    }
}

fn change_of_count(given: Option<usize>) -> (change: CountChange)
    ensures
        change == count_change(given),
{
    match given {
        None => CountChange::Unchanged,
        Some(number) => {
            if number == 0 {
                CountChange::Rejected
            } else if number <= u32::MAX as usize {
                CountChange::To(number as u32)
            } else {
                CountChange::OutOfRange
            }
        },
    }
}

/// What one invocation is to do.
#[derive(Debug, Clone, PartialEq, Eq)]
pub enum CliPlan {
    /// Change the numbers of the reminder. Nothing is installed, which the
    /// user is warned of where `force` was given.
    TuneReminder { force_ignored: bool, max: CountChange, interval: CountChange },
    /// Check for a newer version and install it.
    InstallUpdate { force: bool },
    /// Delete the prompt files, so that the built-in texts are used again.
    /// The user is warned where other options were given, which are left
    /// aside.
    ResetPrompts { others_ignored: bool },
    /// Show or edit the prompt files.
    Prompt { edit: bool, prompt: Option<String>, editor: Option<String> },
    /// Print the `ai` section.
    ShowAi,
    /// Change the `ai` section.
    UpdateAi {
        model: Option<String>,
        apikey: Option<String>,
        url: Option<String>,
        language: Option<String>,
    },
    /// Print where the configuration lies, or set the ceiling, or both.
    Config { show_location: bool, lines_limit: Option<usize> },
    /// Draft a message and commit.
    Commit(CommitOptions),
}

/// What an invocation is to do, given its arguments. Without a subcommand
/// the tool drafts a message and commits.
pub open spec fn planned(cli: GimCli) -> CliPlan {
    match cli.command {
        Some(GimCommands::Update { force, max, interval }) => if max is Some || interval is Some {
            CliPlan::TuneReminder {
                force_ignored: force,
                max: count_change(max),
                interval: count_change(interval),
            }
        } else {
            CliPlan::InstallUpdate { force }
        },
        Some(GimCommands::Prompt { edit, prompt, editor, reset }) => if reset {
            CliPlan::ResetPrompts { others_ignored: edit || prompt is Some || editor is Some }
        } else {
            CliPlan::Prompt { edit, prompt, editor }
        },
        Some(GimCommands::Ai { model, apikey, url, language }) => if model is None && apikey is None
            && url is None && language is None {
            CliPlan::ShowAi
        } else {
            CliPlan::UpdateAi { model, apikey, url, language }
        },
        Some(GimCommands::Config { lines_limit, show_location }) => CliPlan::Config {
            show_location,
            lines_limit,
        },
        None => CliPlan::Commit(
            CommitOptions {
                title: cli.title,
                auto_add: cli.auto_add,
                amend: cli.overwrite,
                verbose: cli.verbose,
            },
        ),
    }
}

fn copy_of(text: &Option<String>) -> (copy: Option<String>)
    ensures
        copy == *text,
{
    match text {
        Some(text) => Some(text.clone()),
        None => None,
    }
}

/// Decides what one invocation is to do.
pub fn run_cli(cli: &GimCli) -> (plan: CliPlan)
    ensures
        plan == planned(*cli),
{
    match &cli.command {
        Some(GimCommands::Update { force, max, interval }) => {
            if max.is_some() || interval.is_some() {
                CliPlan::TuneReminder {
                    force_ignored: *force,
                    max: change_of_count(*max),
                    interval: change_of_count(*interval),
                }
            } else {
                CliPlan::InstallUpdate { force: *force }
            }
        },
        Some(GimCommands::Prompt { edit, prompt, editor, reset }) => {
            if *reset {
                CliPlan::ResetPrompts {
                    others_ignored: *edit || prompt.is_some() || editor.is_some(),
                }
            } else {
                CliPlan::Prompt { edit: *edit, prompt: copy_of(prompt), editor: copy_of(editor) }
            }
        },
        Some(GimCommands::Ai { model, apikey, url, language }) => {
            if model.is_none() && apikey.is_none() && url.is_none() && language.is_none() {
                CliPlan::ShowAi
            } else {
                CliPlan::UpdateAi {
                    model: copy_of(model),
                    apikey: copy_of(apikey),
                    url: copy_of(url),
                    language: copy_of(language),
                }
            }
        },
        Some(GimCommands::Config { lines_limit, show_location }) => CliPlan::Config {
            show_location: *show_location,
            lines_limit: *lines_limit,
        },
        None => CliPlan::Commit(
            CommitOptions {
                title: copy_of(&cli.title),
                auto_add: cli.auto_add,
                amend: cli.overwrite,
                verbose: cli.verbose,
            },
        ),
    }
}

} // verus!
