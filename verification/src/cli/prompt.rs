//! The prompt builder: the texts that set the model's task, and the
//! directive that asks for an answer in another language.

use crate::constants::{DEFAULT_LANGUAGE, DIFF_PROMPT_FILE, SUBJECT_PROMPT_FILE};
use crate::text::{joined, lowercase, texts_view};
use vstd::prelude::*;
use vstd::string::StringExecFns;

verus! {

/// The two tasks the model is given.
#[derive(Debug, Clone, Copy, PartialEq, Eq, Structural)]
pub enum PromptKind {
    /// Summarise a diff, file by file.
    Diff,
    /// Draw one commit subject from such a summary.
    Subject,
}

/// The built-in text for summarising a diff.
pub const DIFF_PROMPT: &'static str = r#"You are an expert developer specialist in creating git commits.
Provide a super concise one sentence summary for each changed file, describing the main change made.
Each line must follow this format {FILE: CHANGES: (CHANGED_LINES_COUNT)}

Please follow these rules strictly:
- Output ONLY the lines of summaries, NO explanations, NO markdown, NO code blocks.
- Each file change gets exactly one line.
- Do not use general terms like "update" or "change", be specific.
- Use present tense, active voice, and imperative mood (e.g., "Fix bug" instead of "Fixed bug").
- Skip project lock files, like 'Cargo.lock' or 'package-lock.json', 'pnpm-lock.yaml', 'yarn.lock'
- Skip binary files diff content
- Ignore files under .code folder or .idea folder, unless there aren't other files changed.
- Avoid phrases like "The main goal is to..." or "Based on...", just state the change directly.
- The output should be ready to copy-paste as a commit message with no further modification.

Examples:
src/main.rs: Add login validation logic (87)
README.md: Update installation instructions (12)
"#;

/// The built-in text for drawing a commit subject.
pub const SUBJECT_PROMPT: &'static str = r#"You are an expert developer specialist in creating git commits messages.
Your only goal is to retrieve a single commit message.
Based on the provided user changes, combine them in ONE SINGLE commit message retrieving the global idea, following strictly the next rules:
- Assign the commit {type} according to the next conditions:
    feat: Only when adding a new feature.
    fix: When fixing a bug.
    docs: When updating documentation.
    style: When changing elements styles or design and/or making changes to the code style (formatting, missing semicolons, etc.) without changing the code logic.
    test: When adding or updating tests.
    chore: When making changes to the build process or auxiliary tools and libraries.
    revert: When undoing a previous commit.
    refactor: When restructuring code without changing its external behavior, or is any of the other refactor types.
- Do not add any issues numeration, explain your output nor introduce your answer.
- The number at the end of each file change is the count of changed lines; prioritize summarizing files with more line changes, except for newly added files which have medium priority
- Output directly only one commit message in plain text with the next format: {type}: {commit_message}.
- Be as concise as possible, keep the message under 50 characters or letters.
"#;

/// The built-in text of a task.
pub open spec fn default_prompt(kind: PromptKind) -> Seq<char> {
    match kind {
        PromptKind::Diff => DIFF_PROMPT@,
        PromptKind::Subject => SUBJECT_PROMPT@,
    }
}

/// The name of the file in which the user may keep a text of their own for
/// a task.
pub open spec fn prompt_file(kind: PromptKind) -> Seq<char> {
    match kind {
        PromptKind::Diff => DIFF_PROMPT_FILE@,
        PromptKind::Subject => SUBJECT_PROMPT_FILE@,
    }
}

/// The name of the file that holds the user's text for a task.
pub fn prompt_file_name(kind: PromptKind) -> (name: &'static str)
    ensures
        name@ == prompt_file(kind),
{
    match kind {
        PromptKind::Diff => DIFF_PROMPT_FILE,
        PromptKind::Subject => SUBJECT_PROMPT_FILE,
    }
}

/// What was found where the user's text for a task is kept.
#[derive(Debug, Clone, PartialEq, Eq)]
pub enum PromptFile {
    /// The directory for such files could not be determined.
    NoDirectory,
    /// There is no file yet.
    Missing,
    /// The file holds this text.
    Stored(String),
    /// There is a file, but it could not be read.
    Unreadable,
}

/// The text to use for a task, and whether it is to be written to the
/// user's file so that later runs and edits start from it.
#[derive(Debug, Clone, PartialEq, Eq)]
pub struct PromptLoad {
    pub text: String,
    pub seed: bool,
}

/// The text for a task: what the user's file holds where it could be read,
/// and the built-in text otherwise. A file that does not exist yet is seeded
/// with the built-in text.
pub open spec fn loaded(kind: PromptKind, found: PromptFile) -> (Seq<char>, bool) {
    match found {
        PromptFile::Stored(text) => (text@, false),
        PromptFile::Missing => (default_prompt(kind), true),
        PromptFile::NoDirectory | PromptFile::Unreadable => (default_prompt(kind), false),
    }
}

/// Chooses the text for a task from what was found on disk.
pub fn load(kind: PromptKind, found: PromptFile) -> (prompt: PromptLoad)
    ensures
        (prompt.text@, prompt.seed) == loaded(kind, found),
{
    let builtin = match kind {
        PromptKind::Diff => DIFF_PROMPT,
        PromptKind::Subject => SUBJECT_PROMPT,
    };
    match found {
        PromptFile::Stored(text) => PromptLoad { text, seed: false },
        PromptFile::Missing => PromptLoad { text: String::from_str(builtin), seed: true },
        PromptFile::NoDirectory | PromptFile::Unreadable => PromptLoad {
            text: String::from_str(builtin),
            seed: false,
        },
    }
}

/// Returns the text for summarising a diff: the user's where it could be
/// read, the built-in one otherwise.
pub fn get_diff_prompt(found: PromptFile) -> (prompt: PromptLoad)
    ensures
        (prompt.text@, prompt.seed) == loaded(PromptKind::Diff, found),
{
    load(PromptKind::Diff, found)
}

/// Returns the text for drawing a commit subject: the user's where it could
/// be read, the built-in one otherwise.
pub fn get_subject_prompt(found: PromptFile) -> (prompt: PromptLoad)
    ensures
        (prompt.text@, prompt.seed) == loaded(PromptKind::Subject, found),
{
    load(PromptKind::Subject, found)
}

/// Once a file holds a text, loading returns exactly that text and writes
/// nothing: the file is the source of truth.
pub proof fn lemma_stored_prompt_is_returned(kind: PromptKind, stored: String)
    ensures
        loaded(kind, PromptFile::Stored(stored)) == (stored@, false),
{
}

/// Loading where no file exists seeds the file; loading again, from the
/// file as seeded, returns the identical text and seeds nothing further.
pub proof fn lemma_seeded_prompt_round_trip(kind: PromptKind, seeded: String)
    requires
        seeded@ == loaded(kind, PromptFile::Missing).0,
    ensures
        loaded(kind, PromptFile::Missing).1,
        loaded(kind, PromptFile::Stored(seeded)).0 == loaded(kind, PromptFile::Missing).0,
        !loaded(kind, PromptFile::Stored(seeded)).1,
{
}

/// The request to answer in `language`, with the fallback for a language
/// the model does not know.
pub open spec fn language_directive(language: Seq<char>) -> Seq<char> {
    "\n The answer should be in "@ + language
        + " language. If you cannot recognize this language, use English instead."@
}

/// A text with the language directive at its end, unless the language is
/// the default one, for which nothing is added.
pub open spec fn augmented(text: Seq<char>, language: Seq<char>) -> Seq<char> {
    if language == DEFAULT_LANGUAGE@ {
        text
    } else {
        text + language_directive(language)
    }
}

/// Appends the language directive to a text where the target language is
/// not the default one.
pub fn augment(prompt_text: &str, target_language: &str) -> (text: String)
    ensures
        text@ == augmented(prompt_text@, target_language@),
{
    let mut text = String::from_str(prompt_text);
    if !str::eq(target_language, DEFAULT_LANGUAGE) {
        text.append("\n The answer should be in ");
        text.append(target_language);
        text.append(" language. If you cannot recognize this language, use English instead.");
    }
    text
}

/// Asking for the default language leaves every text as it is.
pub proof fn lemma_default_language_adds_nothing(text: Seq<char>)
    ensures
        augmented(text, DEFAULT_LANGUAGE@) == text,
{
}

/// The task that a name given on the command line stands for. The name is
/// taken in lowercase.
pub open spec fn kind_named(lowered: Seq<char>) -> Option<PromptKind> {
    if lowered == "d"@ || lowered == "diff"@ || lowered == "diff_prompt"@ || lowered
        == DIFF_PROMPT_FILE@ {
        Some(PromptKind::Diff)
    } else if lowered == "s"@ || lowered == "subject"@ || lowered == "subject_prompt"@ || lowered
        == SUBJECT_PROMPT_FILE@ {
        Some(PromptKind::Subject)
    } else {
        None
    }
}

/// Finds the task that a name, already in lowercase, stands for.
pub fn prompt_kind_named(lowered: &str) -> (kind: Option<PromptKind>)
    ensures
        kind == kind_named(lowered@),
{
    if str::eq(lowered, "d") || str::eq(lowered, "diff") || str::eq(lowered, "diff_prompt")
        || str::eq(lowered, DIFF_PROMPT_FILE) {
        Some(PromptKind::Diff)
    } else if str::eq(lowered, "s") || str::eq(lowered, "subject") || str::eq(
        lowered,
        "subject_prompt",
    ) || str::eq(lowered, SUBJECT_PROMPT_FILE) {
        Some(PromptKind::Subject)
    } else {
        None
    }
}

/// What the user is told about a name that stands for no task.
pub open spec fn unknown_prompt_message(name: Seq<char>) -> Seq<char> {
    "Unknown prompt type '"@ + name
        + "'. Use 'd' or 'diff' or 'diff_prompt' for diff prompt, and 's' or 'subject' or 'subject_prompt' for subject prompt"@
}

/// What the `prompt` subcommand comes to.
#[derive(Debug, Clone, PartialEq, Eq)]
pub enum PromptCommand {
    /// Show both texts.
    Show,
    /// Open the directory that holds the prompt files, and name them.
    OpenDirectory,
    /// Open the file of one task with the editor that the user named.
    Edit { kind: PromptKind, editor: String },
    /// Show the file of one task in the file manager.
    Reveal { kind: PromptKind },
}

/// What a [`PromptCommand`] holds, with every text as the sequence of its characters.
pub enum PromptCommandView {
    Show,
    OpenDirectory,
    Edit { kind: PromptKind, editor: Seq<char> },
    Reveal { kind: PromptKind },
}

impl View for PromptCommand {
    type V = PromptCommandView;

    open spec fn view(&self) -> PromptCommandView {
        match self {
            PromptCommand::Show => PromptCommandView::Show,
            PromptCommand::OpenDirectory => PromptCommandView::OpenDirectory,
            PromptCommand::Edit { kind, editor } => PromptCommandView::Edit {
                kind: *kind,
                editor: editor@,
            },
            PromptCommand::Reveal { kind } => PromptCommandView::Reveal { kind: *kind },
        }
    }
}

/// What the `prompt` subcommand comes to, given the task that the name
/// stands for once it is in lowercase: without `edit` the texts are shown;
/// with it and no name the directory is opened; with a name its file is
/// opened, or the user is told that the name is unknown.
pub open spec fn prompt_command(
    edit: bool,
    prompt: Option<Seq<char>>,
    editor: Option<Seq<char>>,
) -> Result<PromptCommandView, Seq<char>> {
    if !edit {
        Ok(PromptCommandView::Show)
    } else {
        match prompt {
            None => Ok(PromptCommandView::OpenDirectory),
            Some(name) => match kind_named(lowercase(name)) {
                None => Err(unknown_prompt_message(name)),
                Some(kind) => match editor {
                    Some(editor) => Ok(PromptCommandView::Edit { kind, editor }),
                    None => Ok(PromptCommandView::Reveal { kind }),
                },
            },
        }
    }
}

/// Decides what the `prompt` subcommand is to do.
pub fn handle_prompt_command(edit: bool, prompt: Option<&str>, editor: Option<&str>) -> (command: Result<
    PromptCommand,
    String,
>)
    ensures
        (match prompt_command(
            edit,
            match prompt {
                Some(name) => Some(name@),
                None => None,
            },
            match editor {
                Some(editor) => Some(editor@),
                None => None,
            },
        ) {
            Ok(expected) => command is Ok && command->Ok_0@ == expected,
            Err(message) => command is Err && command->Err_0@ == message,
        }),
{
    if !edit {
        return Ok(PromptCommand::Show);
    }
    let name = match prompt {
        None => {
            return Ok(PromptCommand::OpenDirectory);
        },
        Some(name) => name,
    };
    let lowered = name.to_lowercase();
    match prompt_kind_named(lowered.as_str()) {
        None => {
            let head = joined("Unknown prompt type '", name);
            Err(
                joined(
                    head.as_str(),
                    "'. Use 'd' or 'diff' or 'diff_prompt' for diff prompt, and 's' or 'subject' or 'subject_prompt' for subject prompt",
                ),
            )
        },
        Some(kind) => match editor {
            Some(editor) => Ok(PromptCommand::Edit { kind, editor: String::from_str(editor) }),
            None => Ok(PromptCommand::Reveal { kind }),
        },
    }
}

/// The kinds of system that open files in different ways.
#[derive(Debug, Clone, Copy, PartialEq, Eq, Structural)]
pub enum Platform {
    MacOs,
    Windows,
    Other,
}

/// The program that opens a directory in the file manager.
pub open spec fn file_manager(platform: Platform) -> Seq<char> {
    match platform {
        Platform::MacOs => "open"@,
        Platform::Windows => "explorer"@,
        Platform::Other => "xdg-open"@,
    }
}

/// The command line that opens `directory` in the file manager.
pub open spec fn open_directory_words(platform: Platform, directory: Seq<char>) -> Seq<Seq<char>> {
    seq![file_manager(platform), directory]
}

/// The command line that shows `file` in the file manager: selected in its
/// directory where the file manager can do that, and else the directory.
pub open spec fn reveal_words(platform: Platform, file: Seq<char>, parent: Seq<char>) -> Seq<
    Seq<char>,
> {
    match platform {
        Platform::MacOs => seq![file_manager(platform), "-R"@, file],
        Platform::Windows => seq![file_manager(platform), "/select,"@, file],
        Platform::Other => seq![file_manager(platform), parent],
    }
}

fn file_manager_name(platform: Platform) -> (program: &'static str)
    ensures
        program@ == file_manager(platform),
{
    match platform {
        Platform::MacOs => "open",
        Platform::Windows => "explorer",
        Platform::Other => "xdg-open",
    }
}

/// The command line, program first, that opens the configuration directory
/// in the file manager.
pub fn open_config_directory(platform: Platform, directory: &str) -> (words: Vec<String>)
    ensures
        texts_view(words@) == open_directory_words(platform, directory@),
{
    let mut words: Vec<String> = Vec::new();
    words.push(String::from_str(file_manager_name(platform)));
    words.push(String::from_str(directory));
    words
}

/// The command line, program first, that shows a prompt file in the file
/// manager.
pub fn reveal_prompt_file(platform: Platform, file: &str, parent: &str) -> (words: Vec<String>)
    ensures
        texts_view(words@) == reveal_words(platform, file@, parent@),
{
    let mut words: Vec<String> = Vec::new();
    words.push(String::from_str(file_manager_name(platform)));
    match platform {
        Platform::MacOs => {
            words.push(String::from_str("-R"));
            words.push(String::from_str(file));
        },
        Platform::Windows => {
            words.push(String::from_str("/select,"));
            words.push(String::from_str(file));
        },
        Platform::Other => {
            words.push(String::from_str(parent));
        },
    }
    words
}

} // verus!
